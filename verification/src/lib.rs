//! A relocatable code-emission engine for the MOS 6502.
//!
//! A [`Block`] records statements and labels relative to offset zero.
//! Assembling it at a base address patches every statement into a byte
//! buffer and yields the relocated label table as an [`AssembledBlock`].

pub mod address;
pub mod interrupt_vector;
pub mod opcode;
pub mod statement;
pub mod resolve;
mod labels;
pub mod error;
pub mod assembled;
pub mod block;
pub mod operand;
pub mod laws;

pub use address::Address;
pub use assembled::AssembledBlock;
pub use block::{Block, BlockView};
pub use error::{DuplicateLabel, Error};
pub use opcode::UnknownOpcode;
pub use operand::{
    Addr, ArgOperand, LabelOffsetHi, LabelOffsetLo, LabelRelativeOffset, LabelRelativeOffsetOwned,
};
pub use statement::{Placed, Statement};
