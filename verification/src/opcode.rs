//! Opcode bytes: the one the assembler emits by itself, and the value that
//! stands for a byte that is no opcode.

use crate::address::{hi_nibble, lo_nibble};
use vstd::prelude::*;
use vstd::string::StringExecFns;

verus! {

/// `JMP` with an absolute operand.
pub const JMP_ABSOLUTE: u8 = 0x4c;

/// A byte that is not the opcode of any instruction.
#[derive(Clone, Copy)]
pub struct UnknownOpcode(pub u8);

/// The sixteen hexadecimal digits, in order.
pub open spec fn hex_digits() -> Seq<char> {
    seq!['0', '1', '2', '3', '4', '5', '6', '7', '8', '9', 'A', 'B', 'C', 'D', 'E', 'F']
}

/// The digit for `nibble`, as a string of one character.
fn hex_digit(nibble: u8) -> (digit: &'static str)
    requires
        nibble < 16,
    ensures
        digit@ == seq![hex_digits()[nibble as int]],
{
    let digits = "0123456789ABCDEF";
    proof {
        reveal_strlit("0123456789ABCDEF");
        assert(digits@ =~= hex_digits());
    }
    let digit = digits.substring_ascii(nibble as usize, nibble as usize + 1);
    assert(digit@ =~= seq![hex_digits()[nibble as int]]);
    digit
}

impl UnknownOpcode {
    /// The text that stands for the value: the type's name, then the byte as
    /// two hexadecimal digits in parentheses.
    pub open spec fn text(self) -> Seq<char> {
        "UnknownOpcode("@ + seq![
            hex_digits()[self.0 as int / 16],
            hex_digits()[self.0 as int % 16],
        ] + ")"@
    }

    /// The value as text, such as `UnknownOpcode(4C)`.
    pub fn to_text(&self) -> (text: String)
        ensures
            text@ == self.text(),
    {
        let mut text = String::from_str("UnknownOpcode(");
        text.append(hex_digit(hi_nibble(self.0)));
        text.append(hex_digit(lo_nibble(self.0)));
        text.append(")");
        assert(text@ =~= self.text());
        text
    }
}

} // verus!
