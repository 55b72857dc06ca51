//! The statements a block is made of, as mathematical values.

use vstd::prelude::*;

verus! {

/// One unit of emitted code, with label names as character sequences.
pub enum Statement {
    /// A byte that is copied as it stands.
    LiteralByte(u8),
    /// The relocated address of a label, low byte first.
    LabelOffsetLe(Seq<char>),
    /// A block-relative offset that is relocated, low byte first.
    LiteralOffsetLe(u16),
    /// An absolute address that is copied without relocation, low byte first.
    LiteralAddressLe(u16),
    /// The low byte of the relocated address of a label.
    LabelOffsetLo(Seq<char>),
    /// The high byte of the relocated address of a label.
    LabelOffsetHi(Seq<char>),
    /// The signed distance from the byte after this one to a label.
    LabelRelativeOffset(Seq<char>),
}

impl Statement {
    /// How many bytes the statement occupies.
    pub open spec fn width(self) -> nat {
        match self {
            Statement::LiteralByte(_) => 1,
            Statement::LabelOffsetLe(_) => 2,
            Statement::LiteralOffsetLe(_) => 2,
            Statement::LiteralAddressLe(_) => 2,
            Statement::LabelOffsetLo(_) => 1,
            Statement::LabelOffsetHi(_) => 1,
            Statement::LabelRelativeOffset(_) => 1,
        }
    }

    /// The label that the statement refers to, if it refers to one.
    pub open spec fn label(self) -> Option<Seq<char>> {
        match self {
            Statement::LabelOffsetLe(name) => Some(name),
            Statement::LabelOffsetLo(name) => Some(name),
            Statement::LabelOffsetHi(name) => Some(name),
            Statement::LabelRelativeOffset(name) => Some(name),
            _ => None,
        }
    }
}

/// A statement together with the block-relative offset it was emitted at.
pub struct Placed {
    pub data: Statement,
    pub offset: u16,
}

} // verus!
