//! The ways in which building or assembling a block can fail.

use crate::resolve::Fault;
use vstd::prelude::*;

verus! {

/// Why a block could not be assembled.
#[derive(Debug, Clone)]
pub enum Error {
    /// A statement would write at or beyond the end of the buffer.
    OffsetOutOfBounds,
    /// A statement refers to a label that was never declared.
    UndeclaredLabel(String),
    /// A relative reference is too far from its label for a signed byte.
    BranchTargetOutOfRange(String),
}

impl View for Error {
    type V = Fault;

    open spec fn view(&self) -> Fault {
        match self {
            Error::OffsetOutOfBounds => Fault::OffsetOutOfBounds,
            Error::UndeclaredLabel(label) => Fault::UndeclaredLabel(label@),
            Error::BranchTargetOutOfRange(label) => Fault::BranchTargetOutOfRange(label@),
        }
    }
}

/// A label was declared a second time. Holds the label's name.
#[derive(Debug, Clone)]
pub struct DuplicateLabel(pub String);

} // verus!
