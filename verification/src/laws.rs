//! What holds of every block, whatever was emitted into it.

use crate::address::{hi_spec, lo_spec};
use crate::assembled::AssembledBlock;
use crate::block::{outcome_view, BlockView};
use crate::error::Error;
use crate::resolve::{
    displacement, encoding, fault, first_fault, first_fault_from, in_branch_range, patched,
    relocate, relocated, resolve, Fault, Labels,
};
use crate::statement::{Placed, Statement};
use vstd::prelude::*;

verus! {

/// Emitting a statement moves the cursor on by the statement's width, which
/// is one byte or two, and the cursor wraps at 16 bits.
pub proof fn lemma_emit_advances_cursor(block: BlockView, data: Statement)
    ensures
        data.width() == 1 || data.width() == 2,
        block.emit(data).cursor == (block.cursor + data.width()) % 0x1_0000,
        block.emit(data).program.len() == block.program.len() + 1,
        block.emit(data).program.last() == (Placed { data, offset: block.cursor }),
        block.emit(data).labels == block.labels,
{
}

/// A statement of two bytes emitted at the last offset leaves the cursor at
/// offset one.
pub proof fn lemma_cursor_wraps(block: BlockView, data: Statement)
    requires
        block.cursor == 0xffff,
        data.width() == 2,
    ensures
        block.emit(data).cursor == 1,
{
}

/// A label may be declared after the statement that refers to it: to
/// declare a label at one offset and to emit a statement at another gives
/// the same block in either order.
pub proof fn lemma_label_may_follow_its_use(
    block: BlockView,
    name: Seq<char>,
    label_at: u16,
    data: Statement,
    data_at: u16,
    then: u16,
)
    ensures
        block.seek(label_at).declare(name).seek(data_at).emit(data).seek(then) == block.seek(
            data_at,
        ).emit(data).seek(label_at).declare(name).seek(then),
{
}

/// From `from` on, no statement before the first fault has a fault, and
/// the statement at the first fault has one.
pub proof fn lemma_first_fault_from(program: Seq<Placed>, from: int, size: nat, labels: Labels)
    requires
        0 <= from <= program.len(),
    ensures
        from <= first_fault_from(program, from, size, labels) <= program.len(),
        forall|i: int|
            from <= i < first_fault_from(program, from, size, labels) ==> fault(
                #[trigger] program[i],
                size,
                labels,
            ) is None,
        first_fault_from(program, from, size, labels) < program.len() ==> fault(
            program[first_fault_from(program, from, size, labels)],
            size,
            labels,
        ) is Some,
    decreases program.len() - from,
{
    if from < program.len() && fault(program[from], size, labels) is None {
        lemma_first_fault_from(program, from + 1, size, labels);
    }
}

/// The first fault is the one index before which nothing has a fault and
/// at which the program has one or ends.
pub proof fn lemma_first_fault_is_first(program: Seq<Placed>, size: nat, labels: Labels, stop: int)
    ensures
        stop == first_fault(program, size, labels) <==> {
            &&& 0 <= stop <= program.len()
            &&& forall|i: int| 0 <= i < stop ==> fault(#[trigger] program[i], size, labels) is None
            &&& stop < program.len() ==> fault(program[stop], size, labels) is Some
        },
{
    lemma_first_fault_from(program, 0, size, labels);
    let first = first_fault(program, size, labels);
    if 0 <= stop <= program.len() && stop != first {
        if stop < first {
            assert(fault(program[stop], size, labels) is None);
        } else {
            assert(fault(program[first], size, labels) is Some);
        }
    }
}

/// Assembling succeeds if and only if no statement has a fault. When it
/// fails, the error is the fault of the first statement that has one.
pub proof fn lemma_success_iff_no_fault(program: Seq<Placed>, labels: Labels, base: u16, size: nat)
    ensures
        resolve(program, labels, base, size).outcome is Ok <==> forall|i: int|
            0 <= i < program.len() ==> fault(#[trigger] program[i], size, labels) is None,
        resolve(program, labels, base, size).outcome is Ok ==> resolve(
            program,
            labels,
            base,
            size,
        ).outcome == Ok::<Labels, Fault>(relocated(labels, base)),
        resolve(program, labels, base, size).outcome is Err ==> {
            let stop = first_fault(program, size, labels);
            &&& 0 <= stop < program.len()
            &&& resolve(program, labels, base, size).outcome == Err::<Labels, Fault>(
                fault(program[stop], size, labels).unwrap(),
            )
        },
{
    lemma_first_fault_from(program, 0, size, labels);
}

/// A reference to a label that the block does not declare makes assembling
/// fail, wherever in the program it stands. If no statement before it has a
/// fault and it lies within the buffer, the error names the label.
pub proof fn lemma_undeclared_label_fails(
    program: Seq<Placed>,
    labels: Labels,
    base: u16,
    size: nat,
    at: int,
    name: Seq<char>,
)
    requires
        0 <= at < program.len(),
        program[at].data.label() == Some(name),
        !labels.contains_key(name),
    ensures
        resolve(program, labels, base, size).outcome is Err,
        (forall|i: int| 0 <= i < at ==> fault(#[trigger] program[i], size, labels) is None)
            && program[at].offset + program[at].data.width() <= size ==> resolve(
            program,
            labels,
            base,
            size,
        ).outcome == Err::<Labels, Fault>(Fault::UndeclaredLabel(name)),
{
    lemma_first_fault_from(program, 0, size, labels);
    assert(fault(program[at], size, labels) is Some);
    lemma_first_fault_is_first(program, size, labels, at);
}

/// A statement that would write at or beyond the end of the buffer makes
/// assembling fail, wherever in the program it stands. If no statement
/// before it has a fault, the error is that of the bounds.
pub proof fn lemma_out_of_bounds_fails(
    program: Seq<Placed>,
    labels: Labels,
    base: u16,
    size: nat,
    at: int,
)
    requires
        0 <= at < program.len(),
        program[at].offset + program[at].data.width() > size,
    ensures
        resolve(program, labels, base, size).outcome is Err,
        (forall|i: int| 0 <= i < at ==> fault(#[trigger] program[i], size, labels) is None)
            ==> resolve(program, labels, base, size).outcome == Err::<Labels, Fault>(
            Fault::OffsetOutOfBounds,
        ),
{
    lemma_first_fault_from(program, 0, size, labels);
    assert(fault(program[at], size, labels) == Some(Fault::OffsetOutOfBounds));
    lemma_first_fault_is_first(program, size, labels, at);
}

/// Where the distance from the byte after `at` to `target` fits in 16 bits
/// with a sign, the displacement is that distance. It is in range for a
/// relative reference exactly from -128 to 127.
pub proof fn lemma_displacement_is_distance(target: u16, at: u16)
    requires
        -0x8000 <= target - (at + 1) < 0x8000,
    ensures
        displacement(target, at) == target - (at + 1),
        in_branch_range(displacement(target, at)) <==> -128 <= target - (at + 1) <= 127,
{
}

/// A relative reference whose label is declared fails exactly when the
/// displacement is outside the range of a signed byte, provided that the
/// statement lies within the buffer.
pub proof fn lemma_branch_range(placed: Placed, size: nat, labels: Labels, name: Seq<char>)
    requires
        placed.data == Statement::LabelRelativeOffset(name),
        labels.contains_key(name),
        placed.offset < size,
    ensures
        fault(placed, size, labels) is Some <==> !in_branch_range(
            displacement(labels[name], placed.offset),
        ),
        fault(placed, size, labels) is Some ==> fault(placed, size, labels) == Some(
            Fault::BranchTargetOutOfRange(name),
        ),
{
}

/// Assembling the same block at the same base into the same size gives the
/// same result: two runs that each meet the contract of
/// [`Block::assemble`](crate::block::Block::assemble) leave the same bytes
/// in their buffers, whatever the buffers held before, and return the same
/// labels or the same error.
pub proof fn lemma_resolution_repeatable(
    block: BlockView,
    base: u16,
    size: nat,
    first_buffer: Seq<u8>,
    first: Result<AssembledBlock, Error>,
    second_buffer: Seq<u8>,
    second: Result<AssembledBlock, Error>,
)
    requires
        first_buffer == block.assemble(base, size).buffer,
        outcome_view(first) == block.assemble(base, size).outcome,
        second_buffer == block.assemble(base, size).buffer,
        outcome_view(second) == block.assemble(base, size).outcome,
    ensures
        first_buffer == second_buffer,
        outcome_view(first) == outcome_view(second),
        first is Ok <==> second is Ok,
        first matches Ok(one) ==> second matches Ok(other) && one@ == other@,
        first matches Err(one) ==> second matches Err(other) && one@ == other@,
{
}

/// Whether assembling fails, and with which error, does not depend on the
/// base: a block that assembles at one address assembles at every other.
pub proof fn lemma_faults_ignore_base(
    program: Seq<Placed>,
    labels: Labels,
    base: u16,
    other: u16,
    size: nat,
)
    ensures
        resolve(program, labels, base, size).outcome is Ok <==> resolve(
            program,
            labels,
            other,
            size,
        ).outcome is Ok,
        resolve(program, labels, base, size).outcome is Err ==> resolve(
            program,
            labels,
            base,
            size,
        ).outcome == resolve(program, labels, other, size).outcome,
{
}

/// The relocated table has the names of the block's table, each at its
/// offset plus the base.
pub proof fn lemma_relocated_labels(labels: Labels, base: u16, name: Seq<char>)
    ensures
        relocated(labels, base).contains_key(name) <==> labels.contains_key(name),
        labels.contains_key(name) ==> relocated(labels, base)[name] == relocate(labels[name], base),
        relocate(labels[name], base) == (labels[name] + base) % 0x1_0000,
        relocated(labels, 0) == labels,
{
    assert(relocated(labels, 0) =~= labels);
}

/// Whether `placed` writes the byte at `index`.
pub open spec fn covers(placed: Placed, index: int) -> bool {
    placed.offset <= index < placed.offset + placed.data.width()
}

/// The last of the first `count` statements that writes the byte at
/// `index`, or -1 if none of them does.
pub open spec fn last_writer(program: Seq<Placed>, count: int, index: int) -> int
    decreases count,
{
    if count <= 0 {
        -1
    } else if covers(program[count - 1], index) {
        count - 1
    } else {
        last_writer(program, count - 1, index)
    }
}

/// A statement stands for as many bytes as it is wide.
pub proof fn lemma_encoding_width(placed: Placed, base: u16, labels: Labels)
    ensures
        encoding(placed, base, labels).len() == placed.data.width(),
{
}

/// Patching keeps the buffer's size.
pub proof fn lemma_patched_len(program: Seq<Placed>, count: int, base: u16, size: nat, labels: Labels)
    ensures
        patched(program, count, base, size, labels).len() == size,
    decreases count,
{
    if count > 0 {
        lemma_patched_len(program, count - 1, base, size, labels);
    }
}

/// The last write wins: after the first `count` statements, a byte of the
/// buffer holds what the last statement that covers it wrote there, and
/// zero if no statement covers it.
pub proof fn lemma_last_write_wins(
    program: Seq<Placed>,
    count: int,
    base: u16,
    size: nat,
    labels: Labels,
    index: int,
)
    requires
        0 <= count <= program.len(),
        0 <= index < size,
    ensures
        -1 <= last_writer(program, count, index) < count,
        last_writer(program, count, index) >= 0 ==> covers(
            program[last_writer(program, count, index)],
            index,
        ),
        forall|i: int|
            last_writer(program, count, index) < i < count ==> !covers(#[trigger] program[i], index),
        patched(program, count, base, size, labels)[index] == (if last_writer(program, count, index)
            < 0 {
            0u8
        } else {
            let writer = program[last_writer(program, count, index)];
            encoding(writer, base, labels)[index - writer.offset]
        }),
    decreases count,
{
    if count > 0 {
        lemma_last_write_wins(program, count - 1, base, size, labels, index);
        lemma_patched_len(program, count - 1, base, size, labels);
        lemma_encoding_width(program[count - 1], base, labels);
    }
}

/// What a statement wrote stays where no later statement writes: once the
/// whole program is patched, a byte that the statement at `at` covers, and
/// that no statement after it covers, holds that statement's byte for it.
pub proof fn lemma_statement_is_patched(
    program: Seq<Placed>,
    labels: Labels,
    base: u16,
    size: nat,
    at: int,
    index: int,
)
    requires
        0 <= at < program.len(),
        0 <= index < size,
        covers(program[at], index),
        forall|i: int| at < i < program.len() ==> !covers(#[trigger] program[i], index),
    ensures
        patched(program, program.len() as int, base, size, labels)[index] == encoding(
            program[at],
            base,
            labels,
        )[index - program[at].offset],
{
    lemma_last_write_wins(program, program.len() as int, base, size, labels, index);
    let writer = last_writer(program, program.len() as int, index);
    if writer < at {
        assert(!covers(program[at], index));
    } else if writer > at {
        assert(!covers(program[writer], index));
    }
}

/// A reference to a label by its full address, patched and not written
/// over, reads as the label's offset plus the base, low byte first. It does
/// not matter whether the label was declared before or after the reference.
pub proof fn lemma_label_address_is_patched(
    program: Seq<Placed>,
    labels: Labels,
    base: u16,
    size: nat,
    at: int,
    name: Seq<char>,
)
    requires
        0 <= at < program.len(),
        program[at].data == Statement::LabelOffsetLe(name),
        program[at].offset + 2 <= size,
        forall|i: int|
            at < i < program.len() ==> !covers(#[trigger] program[i], program[at].offset as int)
                && !covers(program[i], program[at].offset + 1),
    ensures
        patched(program, program.len() as int, base, size, labels)[program[at].offset as int]
            == lo_spec(relocate(labels[name], base)),
        patched(program, program.len() as int, base, size, labels)[program[at].offset + 1]
            == hi_spec(relocate(labels[name], base)),
{
    lemma_statement_is_patched(program, labels, base, size, at, program[at].offset as int);
    lemma_statement_is_patched(program, labels, base, size, at, program[at].offset + 1);
}

/// Whether what a statement stands for is the same wherever the block is
/// loaded: a byte, an absolute address and a relative reference are.
pub open spec fn position_independent(data: Statement) -> bool {
    data is LiteralByte || data is LiteralAddressLe || data is LabelRelativeOffset
}

/// A program of position-independent statements is patched to the same
/// bytes at every base.
pub proof fn lemma_position_independent(
    program: Seq<Placed>,
    labels: Labels,
    base: u16,
    other: u16,
    size: nat,
    count: int,
)
    requires
        0 <= count <= program.len(),
        forall|i: int| 0 <= i < count ==> position_independent(#[trigger] program[i].data),
    ensures
        patched(program, count, base, size, labels) == patched(program, count, other, size, labels),
    decreases count,
{
    if count > 0 {
        lemma_position_independent(program, labels, base, other, size, count - 1);
        assert(position_independent(program[count - 1].data));
    }
}

} // verus!
