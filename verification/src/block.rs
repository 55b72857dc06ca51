//! The program builder and its assembly into a byte buffer.

use crate::address::{hi, lo, Address};
use crate::assembled::AssembledBlock;
use crate::error::{DuplicateLabel, Error};
use crate::labels::LabelTable;
use crate::opcode::JMP_ABSOLUTE;
use crate::operand::ArgOperand;
use crate::resolve::{
    distance, encoding, fault, first_fault_from, little_endian, overwrite, patched, resolve,
    twos_complement, Fault, Labels, Resolution,
};
use crate::statement::{Placed, Statement};
use vstd::prelude::*;

verus! {

enum Data {
    LiteralByte(u8),
    LabelOffsetLe(String),
    LiteralOffsetLe(Address),
    LiteralAddressLe(Address),
    LabelOffsetLo(String),
    LabelOffsetHi(String),
    LabelRelativeOffset(String),
}

impl View for Data {
    type V = Statement;

    closed spec fn view(&self) -> Statement {
        match self {
            Data::LiteralByte(byte) => Statement::LiteralByte(*byte),
            Data::LabelOffsetLe(label) => Statement::LabelOffsetLe(label@),
            Data::LiteralOffsetLe(offset) => Statement::LiteralOffsetLe(*offset),
            Data::LiteralAddressLe(address) => Statement::LiteralAddressLe(*address),
            Data::LabelOffsetLo(label) => Statement::LabelOffsetLo(label@),
            Data::LabelOffsetHi(label) => Statement::LabelOffsetHi(label@),
            Data::LabelRelativeOffset(label) => Statement::LabelRelativeOffset(label@),
        }
    }
}

struct DataAtOffset {
    data: Data,
    offset: Address,
}

impl View for DataAtOffset {
    type V = Placed;

    closed spec fn view(&self) -> Placed {
        Placed { data: self.data@, offset: self.offset }
    }
}

/// A program under construction: the statements emitted so far, the labels
/// declared so far, and the offset at which the next statement goes.
pub struct Block {
    cursor_offset: Address,
    program: Vec<DataAtOffset>,
    labels: LabelTable,
}

/// A block as a mathematical value.
pub struct BlockView {
    /// The offset at which the next statement is emitted.
    pub cursor: u16,
    /// The statements in emission order.
    pub program: Seq<Placed>,
    /// The labels declared so far, each with the cursor at its declaration.
    pub labels: Labels,
}

impl BlockView {
    /// The block that holds nothing, with the cursor at zero.
    pub open spec fn empty() -> BlockView {
        BlockView { cursor: 0, program: Seq::empty(), labels: Map::empty() }
    }

    /// The block with the cursor moved to `offset`.
    pub open spec fn seek(self, offset: u16) -> BlockView {
        BlockView { cursor: offset, ..self }
    }

    /// The block with `data` appended at the cursor, and the cursor moved
    /// past it. The cursor wraps at 16 bits.
    pub open spec fn emit(self, data: Statement) -> BlockView {
        BlockView {
            cursor: self.cursor.wrapping_add(data.width() as u16),
            program: self.program.push(Placed { data, offset: self.cursor }),
            labels: self.labels,
        }
    }

    /// The block with `data` emitted, if there is any.
    pub open spec fn emit_operand(self, data: Option<Statement>) -> BlockView {
        match data {
            Some(data) => self.emit(data),
            None => self,
        }
    }

    /// The block with `name` declared at the cursor.
    pub open spec fn declare(self, name: Seq<char>) -> BlockView {
        BlockView { labels: self.labels.insert(name, self.cursor), ..self }
    }

    /// What assembling the block at `base` into `size` bytes gives.
    pub open spec fn assemble(self, base: u16, size: nat) -> Resolution {
        resolve(self.program, self.labels, base, size)
    }
}

/// What the value that assembling returns stands for.
pub open spec fn outcome_view(result: Result<AssembledBlock, Error>) -> Result<Labels, Fault> {
    match result {
        Ok(block) => Ok(block@),
        Err(error) => Err(error@),
    }
}

impl View for Block {
    type V = BlockView;

    closed spec fn view(&self) -> BlockView {
        BlockView {
            cursor: self.cursor_offset,
            program: Seq::new(self.program@.len(), |i: int| self.program@[i]@),
            labels: self.labels@,
        }
    }
}

/// Writes `byte` at index `at`.
fn put(buffer: &mut Vec<u8>, at: usize, byte: u8)
    requires
        at < old(buffer).len(),
    ensures
        final(buffer)@ == overwrite(old(buffer)@, at as int, seq![byte]),
{
    buffer[at] = byte;
    assert(buffer@ =~= overwrite(old(buffer)@, at as int, seq![byte]));
}

/// Writes `address` at indices `at` and `at + 1`, low byte first.
fn put_address(buffer: &mut Vec<u8>, at: usize, address: Address)
    requires
        at + 1 < old(buffer).len(),
    ensures
        final(buffer)@ == overwrite(old(buffer)@, at as int, little_endian(address)),
{
    buffer[at] = lo(address);
    buffer[at + 1] = hi(address);
    assert(buffer@ =~= overwrite(old(buffer)@, at as int, little_endian(address)));
}

/// Patches one statement into `buffer`, or says why it cannot be patched
/// and leaves `buffer` as it was.
fn patch(placed: &DataAtOffset, labels: &LabelTable, base: Address, buffer: &mut Vec<u8>) -> (result:
    Result<(), Error>)
    ensures
        match result {
            Ok(()) => {
                &&& fault(placed@, old(buffer)@.len(), labels@) is None
                &&& final(buffer)@ == overwrite(
                    old(buffer)@,
                    placed@.offset as int,
                    encoding(placed@, base, labels@),
                )
            },
            Err(error) => {
                &&& fault(placed@, old(buffer)@.len(), labels@) == Some(error@)
                &&& final(buffer)@ == old(buffer)@
            },
        },
{
    let at: usize = placed.offset as usize;
    let size: usize = buffer.len();
    match &placed.data {
        Data::LiteralByte(byte) => {
            if at >= size {
                return Err(Error::OffsetOutOfBounds);
            }
            put(buffer, at, *byte);
        },
        Data::LabelOffsetLe(label) => {
            if at + 1 >= size {
                return Err(Error::OffsetOutOfBounds);
            }
            match labels.get(label.as_str()) {
                Some(label_offset) => put_address(buffer, at, label_offset.wrapping_add(base)),
                None => return Err(Error::UndeclaredLabel(label.clone())),
            }
        },
        Data::LiteralOffsetLe(literal_offset) => {
            if at + 1 >= size {
                return Err(Error::OffsetOutOfBounds);
            }
            put_address(buffer, at, literal_offset.wrapping_add(base));
        },
        Data::LiteralAddressLe(address) => {
            if at + 1 >= size {
                return Err(Error::OffsetOutOfBounds);
            }
            put_address(buffer, at, *address);
        },
        Data::LabelOffsetLo(label) => {
            if at >= size {
                return Err(Error::OffsetOutOfBounds);
            }
            match labels.get(label.as_str()) {
                Some(label_offset) => put(buffer, at, lo(label_offset.wrapping_add(base))),
                None => return Err(Error::UndeclaredLabel(label.clone())),
            }
        },
        Data::LabelOffsetHi(label) => {
            if at >= size {
                return Err(Error::OffsetOutOfBounds);
            }
            match labels.get(label.as_str()) {
                Some(label_offset) => put(buffer, at, hi(label_offset.wrapping_add(base))),
                None => return Err(Error::UndeclaredLabel(label.clone())),
            }
        },
        Data::LabelRelativeOffset(label) => {
            if at >= size {
                return Err(Error::OffsetOutOfBounds);
            }
            match labels.get(label.as_str()) {
                Some(label_offset) => {
                    let delta = distance(label_offset, placed.offset);
                    if delta < -128 || delta > 127 {
                        return Err(Error::BranchTargetOutOfRange(label.clone()));
                    }
                    put(buffer, at, twos_complement(delta as i8));
                },
                None => return Err(Error::UndeclaredLabel(label.clone())),
            }
        },
    }
    Ok(())
}

impl Block {
    /// A block with no statements and no labels, and the cursor at zero.
    pub fn new() -> (block: Block)
        ensures
            block@ == BlockView::empty(),
    {
        let block = Block { cursor_offset: 0, program: Vec::new(), labels: LabelTable::new() };
        assert(block@.program =~= Seq::empty());
        block
    }

    /// The offset at which the next statement will be emitted.
    pub fn offset(&self) -> (offset: Address)
        ensures
            offset == self@.cursor,
    {
        self.cursor_offset
    }

    /// Moves the cursor to `offset`. What was emitted stays where it is.
    pub fn set_offset(&mut self, offset: Address)
        ensures
            final(self)@ == old(self)@.seek(offset),
    {
        self.cursor_offset = offset;
    }

    /// Appends `data` at the cursor and moves the cursor `width` bytes on.
    fn emit(&mut self, data: Data, width: u16)
        requires
            width == data@.width(),
        ensures
            final(self)@ == old(self)@.emit(data@),
    {
        self.program.push(DataAtOffset { data, offset: self.cursor_offset });
        self.cursor_offset = self.cursor_offset.wrapping_add(width);
        assert(self@.program =~= old(self)@.emit(data@).program);
    }

    /// Emits one byte as it stands.
    pub fn literal_byte(&mut self, byte: u8)
        ensures
            final(self)@ == old(self)@.emit(Statement::LiteralByte(byte)),
    {
        self.emit(Data::LiteralByte(byte), 1);
    }

    /// Emits a block-relative offset, which assembling relocates, in two
    /// bytes, low byte first.
    pub fn literal_offset_le(&mut self, offset: Address)
        ensures
            final(self)@ == old(self)@.emit(Statement::LiteralOffsetLe(offset)),
    {
        self.emit(Data::LiteralOffsetLe(offset), 2);
    }

    /// Emits an absolute address, which assembling leaves as it is, in two
    /// bytes, low byte first.
    pub fn literal_address_le(&mut self, offset: Address)
        ensures
            final(self)@ == old(self)@.emit(Statement::LiteralAddressLe(offset)),
    {
        self.emit(Data::LiteralAddressLe(offset), 2);
    }

    /// Emits the address of `label` in two bytes, low byte first. The label
    /// may be declared later.
    pub fn label_offset_le(&mut self, label: &str)
        ensures
            final(self)@ == old(self)@.emit(Statement::LabelOffsetLe(label@)),
    {
        self.emit(Data::LabelOffsetLe(label.to_owned()), 2);
    }

    /// Emits the low byte of the address of `label`. The label may be
    /// declared later.
    pub fn label_offset_lo(&mut self, label: &str)
        ensures
            final(self)@ == old(self)@.emit(Statement::LabelOffsetLo(label@)),
    {
        self.emit(Data::LabelOffsetLo(label.to_owned()), 1);
    }

    /// Emits the high byte of the address of `label`. The label may be
    /// declared later.
    pub fn label_offset_hi(&mut self, label: &str)
        ensures
            final(self)@ == old(self)@.emit(Statement::LabelOffsetHi(label@)),
    {
        self.emit(Data::LabelOffsetHi(label.to_owned()), 1);
    }

    /// Emits the distance from the byte after this one to `label` as a
    /// signed byte. The label may be declared later.
    pub fn label_relative_offset(&mut self, label: &str)
        ensures
            final(self)@ == old(self)@.emit(Statement::LabelRelativeOffset(label@)),
    {
        self.emit(Data::LabelRelativeOffset(label.to_owned()), 1);
    }

    /// Declares `s` at the cursor, unless the block declares it already:
    /// then the block stays as it is and the name comes back as the error.
    pub fn try_label(&mut self, s: &str) -> (result: Result<(), DuplicateLabel>)
        ensures
            result is Err <==> old(self)@.labels.contains_key(s@),
            result is Ok ==> final(self)@ == old(self)@.declare(s@),
            result matches Err(duplicate) ==> final(self)@ == old(self)@ && duplicate.0@ == s@,
    {
        if self.labels.declare(s, self.cursor_offset) {
            Ok(())
        } else {
            Err(DuplicateLabel(s.to_owned()))
        }
    }

    /// Declares `s` at the cursor. A label is declared once: `s` must be new.
    pub fn label(&mut self, s: &str)
        requires
            !old(self)@.labels.contains_key(s@),
        ensures
            final(self)@ == old(self)@.declare(s@),
    {
        let fresh = self.labels.declare(s, self.cursor_offset);
        if !fresh {
            vstd::pervasive::unreached()
        }
    }

    /// Emits an instruction: its opcode, then its operand.
    pub fn inst<A: ArgOperand>(&mut self, opcode: u8, arg: A)
        requires
            arg.accepted(),
        ensures
            final(self)@ == old(self)@.emit(Statement::LiteralByte(opcode)).emit_operand(
                arg.statement(),
            ),
    {
        self.literal_byte(opcode);
        arg.program(self);
    }

    /// Emits a jump to itself: the opcode of an absolute jump, then the
    /// offset of that opcode.
    pub fn infinite_loop(&mut self)
        ensures
            final(self)@ == old(self)@.emit(Statement::LiteralByte(JMP_ABSOLUTE)).emit(
                Statement::LiteralOffsetLe(old(self)@.cursor),
            ),
    {
        let offset = self.cursor_offset;
        self.literal_byte(JMP_ABSOLUTE);
        self.literal_offset_le(offset);
    }

    /// Patches the program into `buffer` for a block loaded at `base`.
    ///
    /// `buffer` is first made `size` zero bytes, whatever it held. The
    /// statements are then patched in emission order, so that of two
    /// statements that write the same byte the later one wins. The first
    /// statement that cannot be patched ends the walk with its error, and
    /// `buffer` keeps what the statements before it wrote. If there is none,
    /// the labels come back, each at its offset plus `base`.
    pub fn assemble(&self, base: Address, size: usize, buffer: &mut Vec<u8>) -> (result: Result<
        AssembledBlock,
        Error,
    >)
        ensures
            final(buffer)@ == self@.assemble(base, size as nat).buffer,
            outcome_view(result) == self@.assemble(base, size as nat).outcome,
    {
        let labels = self.labels.relocated(base);
        buffer.clear();
        buffer.resize(size, 0);
        assert(buffer@ =~= patched(self@.program, 0, base, size as nat, self@.labels));
        let mut index: usize = 0;
        while index < self.program.len()
            invariant
                index <= self.program@.len(),
                buffer@.len() == size,
                buffer@ == patched(self@.program, index as int, base, size as nat, self@.labels),
                first_fault_from(self@.program, 0, size as nat, self@.labels) == first_fault_from(
                    self@.program,
                    index as int,
                    size as nat,
                    self@.labels,
                ),
            decreases self.program@.len() - index,
        {
            assert(self@.program[index as int] == self.program@[index as int]@);
            match patch(&self.program[index], &self.labels, base, buffer) {
                Ok(()) => {},
                Err(error) => {
                    return Err(error);
                },
            }
            index += 1;
        }
        Ok(AssembledBlock::new(labels))
    }
}

} // verus!
