//! What assembling a block means: which statement fails first, if any, and
//! what the buffer and the relocated label table hold.

use crate::address::{hi_spec, lo_spec};
use crate::statement::{Placed, Statement};
use vstd::prelude::*;

verus! {

/// The names and block-relative offsets of the labels of a block.
pub type Labels = Map<Seq<char>, u16>;

/// Why a statement cannot be patched.
pub enum Fault {
    /// The statement would write at or beyond the end of the buffer.
    OffsetOutOfBounds,
    /// The statement refers to a label that the block does not declare.
    UndeclaredLabel(Seq<char>),
    /// The label is further from the statement than a signed byte can say.
    BranchTargetOutOfRange(Seq<char>),
}

/// `offset` moved to where the block is loaded. The sum wraps at 16 bits.
pub open spec fn relocate(offset: u16, base: u16) -> u16 {
    offset.wrapping_add(base)
}

/// `x` reduced to 16 bits and read as a signed number.
pub open spec fn signed16(x: int) -> int {
    let low = x % 0x1_0000;
    if low >= 0x8000 {
        low - 0x1_0000
    } else {
        low
    }
}

/// The distance from the byte after the one at `at` to `target`, in signed
/// 16-bit arithmetic. It does not depend on where the block is loaded.
pub open spec fn displacement(target: u16, at: u16) -> int {
    signed16(target - at - 1)
}

/// Whether a displacement fits in a signed byte.
pub open spec fn in_branch_range(distance: int) -> bool {
    -128 <= distance <= 127
}

/// The byte that stands for a displacement in two's complement.
pub open spec fn signed_byte(distance: int) -> u8 {
    if distance < 0 {
        (distance + 0x100) as u8
    } else {
        distance as u8
    }
}

/// The byte that stands for `value` in two's complement.
pub(crate) fn twos_complement(value: i8) -> (byte: u8)
    ensures
        byte == signed_byte(value as int),
{
    assert(value as u8 == (if value < 0 {
        value + 0x100
    } else {
        value as int
    })) by (bit_vector);
    #[verifier::truncate]
    (value as u8)
}

/// The displacement from the byte after the one at `at` to `target`.
pub(crate) fn distance(target: u16, at: u16) -> (distance: i16)
    ensures
        distance == displacement(target, at),
{
    let wrapped: u16 = target.wrapping_sub(at).wrapping_sub(1);
    assert(wrapped as i16 == (if wrapped >= 0x8000 {
        wrapped - 0x1_0000
    } else {
        wrapped as int
    })) by (bit_vector);
    #[verifier::truncate]
    (wrapped as i16)
}

/// The two bytes of `address`, low byte first.
pub open spec fn little_endian(address: u16) -> Seq<u8> {
    seq![lo_spec(address), hi_spec(address)]
}

/// Why `placed` cannot be patched into a buffer of `size` bytes, or `None`
/// if it can. The bounds are looked at first, then the label, then the
/// range of a relative reference.
pub open spec fn fault(placed: Placed, size: nat, labels: Labels) -> Option<Fault> {
    if placed.offset + placed.data.width() > size {
        Some(Fault::OffsetOutOfBounds)
    } else {
        match placed.data {
            Statement::LabelOffsetLe(name) | Statement::LabelOffsetLo(name) | Statement::LabelOffsetHi(name) => {
                if labels.contains_key(name) {
                    None
                } else {
                    Some(Fault::UndeclaredLabel(name))
                }
            },
            Statement::LabelRelativeOffset(name) => {
                if !labels.contains_key(name) {
                    Some(Fault::UndeclaredLabel(name))
                } else if !in_branch_range(displacement(labels[name], placed.offset)) {
                    Some(Fault::BranchTargetOutOfRange(name))
                } else {
                    None
                }
            },
            _ => None,
        }
    }
}

/// The bytes that `placed` stands for when the block is loaded at `base`.
pub open spec fn encoding(placed: Placed, base: u16, labels: Labels) -> Seq<u8> {
    match placed.data {
        Statement::LiteralByte(byte) => seq![byte],
        Statement::LabelOffsetLe(name) => little_endian(relocate(labels[name], base)),
        Statement::LiteralOffsetLe(offset) => little_endian(relocate(offset, base)),
        Statement::LiteralAddressLe(address) => little_endian(address),
        Statement::LabelOffsetLo(name) => seq![lo_spec(relocate(labels[name], base))],
        Statement::LabelOffsetHi(name) => seq![hi_spec(relocate(labels[name], base))],
        Statement::LabelRelativeOffset(name) => seq![
            signed_byte(displacement(labels[name], placed.offset)),
        ],
    }
}

/// `buffer` with `bytes` written over it from index `at` on.
pub open spec fn overwrite(buffer: Seq<u8>, at: int, bytes: Seq<u8>) -> Seq<u8> {
    Seq::new(
        buffer.len(),
        |i: int|
            if at <= i < at + bytes.len() {
                bytes[i - at]
            } else {
                buffer[i]
            },
    )
}

/// The index of the first statement from `from` on that cannot be patched,
/// or the length of the program if there is none.
pub open spec fn first_fault_from(program: Seq<Placed>, from: int, size: nat, labels: Labels) -> int
    decreases program.len() - from,
{
    if from < 0 || from >= program.len() {
        program.len() as int
    } else if fault(program[from], size, labels) is Some {
        from
    } else {
        first_fault_from(program, from + 1, size, labels)
    }
}

/// The index of the first statement that cannot be patched, or the length
/// of the program if every statement can.
pub open spec fn first_fault(program: Seq<Placed>, size: nat, labels: Labels) -> int {
    first_fault_from(program, 0, size, labels)
}

/// A buffer of `size` zero bytes after the first `count` statements were
/// patched into it, one after the other.
pub open spec fn patched(program: Seq<Placed>, count: int, base: u16, size: nat, labels: Labels) -> Seq<u8>
    decreases count,
{
    if count <= 0 {
        Seq::new(size, |i: int| 0u8)
    } else {
        overwrite(
            patched(program, count - 1, base, size, labels),
            program[count - 1].offset as int,
            encoding(program[count - 1], base, labels),
        )
    }
}

/// The label table with every offset moved to where the block is loaded.
pub open spec fn relocated(labels: Labels, base: u16) -> Labels {
    Map::new(|name: Seq<char>| labels.contains_key(name), |name: Seq<char>| relocate(labels[name], base))
}

/// What assembling leaves behind: the buffer, and the relocated labels or
/// the reason for the failure.
pub struct Resolution {
    pub buffer: Seq<u8>,
    pub outcome: Result<Labels, Fault>,
}

/// The result of assembling `program` with `labels` at `base` into `size`
/// bytes. Statements are patched in emission order up to the first one that
/// cannot be; that statement's fault is the outcome.
pub open spec fn resolve(program: Seq<Placed>, labels: Labels, base: u16, size: nat) -> Resolution {
    let stop = first_fault(program, size, labels);
    Resolution {
        buffer: patched(program, stop, base, size, labels),
        outcome: if stop == program.len() {
            Ok(relocated(labels, base))
        } else {
            Err(fault(program[stop], size, labels).unwrap())
        },
    }
}

} // verus!
