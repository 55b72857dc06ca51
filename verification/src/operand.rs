//! The values that can follow an opcode, and how each is emitted.

use crate::address::Address;
use crate::block::Block;
use crate::resolve::{signed_byte, twos_complement};
use crate::statement::Statement;
use vstd::prelude::*;

verus! {

/// A value that can be emitted as the operand of an instruction.
pub trait ArgOperand: Sized {
    /// Whether the value stands for an operand at all.
    spec fn accepted(&self) -> bool;

    /// The statement that the value is emitted as, or `None` if it takes no
    /// room in the program.
    spec fn statement(&self) -> Option<Statement>;

    /// Emits the value at the cursor of `block`.
    fn program(self, block: &mut Block)
        requires
            self.accepted(),
        ensures
            final(block)@ == old(block)@.emit_operand(self.statement()),
    ;
}

/// A label name stands for the label's address.
impl ArgOperand for &'static str {
    open spec fn accepted(&self) -> bool {
        true
    }

    open spec fn statement(&self) -> Option<Statement> {
        Some(Statement::LabelOffsetLe(self@))
    }

    fn program(self, block: &mut Block) {
        block.label_offset_le(self);
    }
}

/// A label name stands for the label's address.
impl ArgOperand for String {
    open spec fn accepted(&self) -> bool {
        true
    }

    open spec fn statement(&self) -> Option<Statement> {
        Some(Statement::LabelOffsetLe(self@))
    }

    fn program(self, block: &mut Block) {
        block.label_offset_le(self.as_str());
    }
}

/// A 16-bit number is an absolute address.
impl ArgOperand for Address {
    open spec fn accepted(&self) -> bool {
        true
    }

    open spec fn statement(&self) -> Option<Statement> {
        Some(Statement::LiteralAddressLe(*self))
    }

    fn program(self, block: &mut Block) {
        block.literal_address_le(self);
    }
}

impl ArgOperand for u8 {
    open spec fn accepted(&self) -> bool {
        true
    }

    open spec fn statement(&self) -> Option<Statement> {
        Some(Statement::LiteralByte(*self))
    }

    fn program(self, block: &mut Block) {
        block.literal_byte(self);
    }
}

/// A signed byte is emitted in two's complement.
impl ArgOperand for i8 {
    open spec fn accepted(&self) -> bool {
        true
    }

    open spec fn statement(&self) -> Option<Statement> {
        Some(Statement::LiteralByte(signed_byte(*self as int)))
    }

    fn program(self, block: &mut Block) {
        block.literal_byte(twos_complement(self));
    }
}

/// An absolute address.
pub struct Addr(pub Address);

impl ArgOperand for Addr {
    open spec fn accepted(&self) -> bool {
        true
    }

    open spec fn statement(&self) -> Option<Statement> {
        Some(Statement::LiteralAddressLe(self.0))
    }

    fn program(self, block: &mut Block) {
        block.literal_address_le(self.0);
    }
}

/// An integer literal without a suffix is an `i32`. It is taken as a byte
/// where it lies in the range of a signed or of an unsigned byte, so that a
/// literal with too many digits is not cut down to eight bits unnoticed.
impl ArgOperand for i32 {
    open spec fn accepted(&self) -> bool {
        -128 <= *self <= 255
    }

    open spec fn statement(&self) -> Option<Statement> {
        Some(Statement::LiteralByte(signed_byte(*self as int)))
    }

    fn program(self, block: &mut Block) {
        if self < -128 || self > 255 {
            vstd::pervasive::unreached()
        }
        assert(-128 <= self <= 255 ==> self as i8 == (if self > 127 {
            self - 0x100
        } else {
            self as int
        })) by (bit_vector);
        let narrow: i8 =
            #[verifier::truncate]
            (self as i8);
        block.literal_byte(twos_complement(narrow));
    }
}

/// No operand: nothing is emitted.
impl ArgOperand for () {
    open spec fn accepted(&self) -> bool {
        true
    }

    open spec fn statement(&self) -> Option<Statement> {
        None
    }

    fn program(self, _block: &mut Block) {
    }
}

/// The low byte of the address of the named label.
pub struct LabelOffsetLo(pub &'static str);

/// The high byte of the address of the named label.
pub struct LabelOffsetHi(pub &'static str);

/// The distance to the named label as a signed byte.
pub struct LabelRelativeOffset(pub &'static str);

/// The distance to the named label as a signed byte.
pub struct LabelRelativeOffsetOwned(pub String);

impl ArgOperand for LabelOffsetLo {
    open spec fn accepted(&self) -> bool {
        true
    }

    open spec fn statement(&self) -> Option<Statement> {
        Some(Statement::LabelOffsetLo(self.0@))
    }

    fn program(self, block: &mut Block) {
        block.label_offset_lo(self.0);
    }
}

impl ArgOperand for LabelOffsetHi {
    open spec fn accepted(&self) -> bool {
        true
    }

    open spec fn statement(&self) -> Option<Statement> {
        Some(Statement::LabelOffsetHi(self.0@))
    }

    fn program(self, block: &mut Block) {
        block.label_offset_hi(self.0);
    }
}

impl ArgOperand for LabelRelativeOffset {
    open spec fn accepted(&self) -> bool {
        true
    }

    open spec fn statement(&self) -> Option<Statement> {
        Some(Statement::LabelRelativeOffset(self.0@))
    }

    fn program(self, block: &mut Block) {
        block.label_relative_offset(self.0);
    }
}

impl ArgOperand for LabelRelativeOffsetOwned {
    open spec fn accepted(&self) -> bool {
        true
    }

    open spec fn statement(&self) -> Option<Statement> {
        Some(Statement::LabelRelativeOffset(self.0@))
    }

    fn program(self, block: &mut Block) {
        block.label_relative_offset(self.0.as_str());
    }
}

} // verus!
