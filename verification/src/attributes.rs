//! The attributes that the nodes of this crate look at.

use vstd::prelude::*;

verus! {

/// The name of an attribute, as the reader of the document has recognised it.
#[derive(Clone, Copy, Debug, PartialEq, Eq, Structural)]
pub enum Attribute {
    Height,
    Id,
    In,
    In2,
    Result,
    Width,
    X,
    Y,
}

/// One attribute of an element with its text.
#[derive(Clone, Debug, PartialEq, Eq)]
pub struct Property {
    pub attr: Attribute,
    pub value: String,
}

} // verus!
