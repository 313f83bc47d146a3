//! Errors that reading an attribute can give.

use vstd::prelude::*;
use crate::attributes::Attribute;

verus! {

/// Why the value of an attribute was not accepted.
#[derive(Clone, Copy, Debug, PartialEq, Eq, Structural)]
pub enum AttributeError {
    /// The text of the value is not of the form that the attribute takes.
    Parse,
}

/// The attribute of a node that was not accepted, and why.
#[derive(Clone, Copy, Debug, PartialEq, Eq, Structural)]
pub struct NodeError {
    pub attr: Attribute,
    pub err: AttributeError,
}

} // verus!
