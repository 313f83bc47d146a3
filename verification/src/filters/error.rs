//! What can go wrong while a filter primitive is rendered.

use vstd::prelude::*;

verus! {

/// The status with which the back end refused an operation, by its code.
#[derive(Clone, Copy, Debug, PartialEq, Eq, Structural)]
pub struct Status {
    pub code: i32,
}

/// The failure of one primitive. It ends the chain it occurs in.
#[derive(Clone, Copy, Debug, PartialEq, Eq, Structural)]
pub enum FilterError {
    /// An input names a result that no earlier primitive has produced.
    InputNotFound,
    /// The back end could not read an input surface or convert it to
    /// linear light.
    BadInputSurfaceStatus(Status),
    /// The back end could not make the output surface.
    OutputSurfaceCreation(Status),
}

} // verus!
