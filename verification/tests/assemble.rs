use mos6502_assembler::address::{hi, lo};
use mos6502_assembler::{Block, Error};

fn assembled_bytes(block: &Block, base: u16, size: usize) -> Vec<u8> {
    let mut buffer = Vec::new();
    block.assemble(base, size, &mut buffer).unwrap();
    buffer
}

fn error_of(block: &Block, base: u16, size: usize) -> Error {
    let mut buffer = Vec::new();
    match block.assemble(base, size, &mut buffer) {
        Ok(_) => panic!("the block was assembled"),
        Err(error) => error,
    }
}

#[test]
fn forward_reference_resolves() {
    let mut block = Block::new();
    block.label_offset_le("L");
    block.set_offset(10);
    block.label("L");
    let mut buffer = Vec::new();
    let assembled = block.assemble(0x8000, 32, &mut buffer).unwrap();
    assert_eq!(buffer.len(), 32);
    assert_eq!(buffer[0], lo(0x800a));
    assert_eq!(buffer[1], hi(0x800a));
    assert_eq!(buffer[0], 0x0a);
    assert_eq!(buffer[1], 0x80);
    assert!(buffer[2..].iter().all(|byte| *byte == 0));
    assert_eq!(assembled.address_of_label("L"), Some(0x800a));
}

#[test]
fn backward_reference_resolves() {
    let mut block = Block::new();
    block.set_offset(3);
    block.label("L");
    block.set_offset(0);
    block.label_offset_le("L");
    assert_eq!(assembled_bytes(&block, 0x0200, 4), vec![0x03, 0x02, 0, 0]);
}

#[test]
fn undeclared_label_fails() {
    let mut block = Block::new();
    block.literal_byte(0x4c);
    block.label_offset_le("missing");
    block.label("present");
    let mut buffer = Vec::new();
    match block.assemble(0x8000, 16, &mut buffer) {
        Err(Error::UndeclaredLabel(name)) => assert_eq!(name, "missing"),
        Err(other) => panic!("wrong error: {:?}", other),
        Ok(_) => panic!("the block was assembled"),
    }
}

#[test]
fn every_label_kind_reports_an_undeclared_label() {
    let mut le = Block::new();
    le.label_offset_le("a");
    assert!(matches!(error_of(&le, 0, 8), Error::UndeclaredLabel(name) if name == "a"));

    let mut low = Block::new();
    low.label_offset_lo("b");
    assert!(matches!(error_of(&low, 0, 8), Error::UndeclaredLabel(name) if name == "b"));

    let mut high = Block::new();
    high.label_offset_hi("c");
    assert!(matches!(error_of(&high, 0, 8), Error::UndeclaredLabel(name) if name == "c"));

    let mut relative = Block::new();
    relative.label_relative_offset("d");
    assert!(matches!(error_of(&relative, 0, 8), Error::UndeclaredLabel(name) if name == "d"));
}

#[test]
fn branch_to_offset_129_from_offset_0_is_out_of_range() {
    let mut block = Block::new();
    block.label_relative_offset("far");
    block.set_offset(129);
    block.label("far");
    let mut buffer = Vec::new();
    match block.assemble(0x8000, 256, &mut buffer) {
        Err(Error::BranchTargetOutOfRange(name)) => assert_eq!(name, "far"),
        Err(other) => panic!("wrong error: {:?}", other),
        Ok(_) => panic!("the block was assembled"),
    }
}

#[test]
fn branch_to_offset_128_from_offset_0_is_127() {
    let mut block = Block::new();
    block.label_relative_offset("near");
    block.set_offset(128);
    block.label("near");
    let buffer = assembled_bytes(&block, 0x8000, 256);
    assert_eq!(buffer[0], 127);
}

#[test]
fn backward_branch_reaches_128_bytes_back() {
    let mut block = Block::new();
    block.label("top");
    block.set_offset(127);
    block.label_relative_offset("top");
    let buffer = assembled_bytes(&block, 0, 128);
    // 0 - (127 + 1) = -128
    assert_eq!(buffer[127], 0x80);

    let mut too_far = Block::new();
    too_far.label("top");
    too_far.set_offset(128);
    too_far.label_relative_offset("top");
    // 0 - (128 + 1) = -129
    assert!(matches!(
        error_of(&too_far, 0, 256),
        Error::BranchTargetOutOfRange(name) if name == "top"
    ));
}

#[test]
fn branch_to_the_next_byte_is_zero() {
    let mut block = Block::new();
    block.label_relative_offset("next");
    block.label("next");
    assert_eq!(assembled_bytes(&block, 0x1234, 1), vec![0x00]);
}

#[test]
fn branch_to_itself_is_minus_one() {
    let mut block = Block::new();
    block.label("here");
    block.label_relative_offset("here");
    assert_eq!(assembled_bytes(&block, 0x1234, 1), vec![0xff]);
}

#[test]
fn branch_distance_does_not_depend_on_the_base() {
    let mut block = Block::new();
    block.set_offset(2);
    block.label_relative_offset("target");
    block.set_offset(0x20);
    block.label("target");
    // 0x20 - (2 + 1) = 0x1d
    assert_eq!(assembled_bytes(&block, 0, 3)[2], 0x1d);
    assert_eq!(assembled_bytes(&block, 0x8000, 3)[2], 0x1d);
    assert_eq!(assembled_bytes(&block, 0xfff0, 3)[2], 0x1d);
}

#[test]
fn branch_distance_wraps_at_16_bits() {
    let mut block = Block::new();
    block.label("zero");
    block.set_offset(0xffff);
    block.label_relative_offset("zero");
    // 0 - (0xffff + 1) is 0 in 16 bits.
    let buffer = assembled_bytes(&block, 0, 0x10000);
    assert_eq!(buffer[0xffff], 0x00);

    let mut far = Block::new();
    far.set_offset(0x8000);
    far.label("middle");
    far.set_offset(0);
    far.label_relative_offset("middle");
    assert!(matches!(
        error_of(&far, 0, 1),
        Error::BranchTargetOutOfRange(name) if name == "middle"
    ));
}

#[test]
fn two_byte_literal_at_offset_3_does_not_fit_in_4_bytes() {
    let mut block = Block::new();
    block.set_offset(3);
    block.literal_address_le(0x1234);
    assert!(matches!(error_of(&block, 0, 4), Error::OffsetOutOfBounds));
    assert_eq!(assembled_bytes(&block, 0, 5), vec![0, 0, 0, 0x34, 0x12]);
}

#[test]
fn every_two_byte_kind_needs_both_bytes_in_bounds() {
    let mut offset = Block::new();
    offset.set_offset(3);
    offset.literal_offset_le(0);
    assert!(matches!(error_of(&offset, 0, 4), Error::OffsetOutOfBounds));
    assert!(matches!(error_of(&offset, 0, 3), Error::OffsetOutOfBounds));
    assert_eq!(assembled_bytes(&offset, 0x1234, 5), vec![0, 0, 0, 0x34, 0x12]);

    let mut label = Block::new();
    label.label("start");
    label.set_offset(3);
    label.label_offset_le("start");
    assert!(matches!(error_of(&label, 0, 4), Error::OffsetOutOfBounds));
    assert_eq!(assembled_bytes(&label, 0x1234, 5), vec![0, 0, 0, 0x34, 0x12]);
}

#[test]
fn one_byte_statement_fits_at_the_last_index() {
    let mut byte = Block::new();
    byte.set_offset(3);
    byte.literal_byte(0xaa);
    assert_eq!(assembled_bytes(&byte, 0, 4), vec![0, 0, 0, 0xaa]);
    assert!(matches!(error_of(&byte, 0, 3), Error::OffsetOutOfBounds));

    let mut low = Block::new();
    low.label("start");
    low.set_offset(3);
    low.label_offset_lo("start");
    assert_eq!(assembled_bytes(&low, 0x12cd, 4), vec![0, 0, 0, 0xcd]);
    assert!(matches!(error_of(&low, 0, 3), Error::OffsetOutOfBounds));

    let mut high = Block::new();
    high.label("start");
    high.set_offset(3);
    high.label_offset_hi("start");
    assert_eq!(assembled_bytes(&high, 0x12cd, 4), vec![0, 0, 0, 0x12]);
    assert!(matches!(error_of(&high, 0, 3), Error::OffsetOutOfBounds));

    let mut relative = Block::new();
    relative.label("start");
    relative.set_offset(3);
    relative.label_relative_offset("start");
    assert_eq!(assembled_bytes(&relative, 0x12cd, 4), vec![0, 0, 0, 0xfc]);
    assert!(matches!(error_of(&relative, 0, 3), Error::OffsetOutOfBounds));
}

#[test]
fn nothing_fits_in_an_empty_buffer() {
    let mut block = Block::new();
    block.literal_byte(1);
    assert!(matches!(error_of(&block, 0, 0), Error::OffsetOutOfBounds));
}

#[test]
fn bounds_are_checked_before_the_label() {
    let mut block = Block::new();
    block.set_offset(8);
    block.label_offset_le("missing");
    assert!(matches!(error_of(&block, 0, 8), Error::OffsetOutOfBounds));
    assert!(matches!(error_of(&block, 0, 10), Error::UndeclaredLabel(name) if name == "missing"));

    let mut relative = Block::new();
    relative.set_offset(8);
    relative.label_relative_offset("missing");
    assert!(matches!(error_of(&relative, 0, 8), Error::OffsetOutOfBounds));
    assert!(matches!(error_of(&relative, 0, 9), Error::UndeclaredLabel(name) if name == "missing"));
}

#[test]
fn first_failing_statement_decides_the_error() {
    let mut block = Block::new();
    block.literal_byte(0x11);
    block.label_offset_lo("missing");
    block.set_offset(100);
    block.literal_byte(0x22);
    assert!(matches!(error_of(&block, 0, 8), Error::UndeclaredLabel(name) if name == "missing"));

    let mut other = Block::new();
    other.set_offset(100);
    other.literal_byte(0x22);
    other.set_offset(0);
    other.label_offset_lo("missing");
    assert!(matches!(error_of(&other, 0, 8), Error::OffsetOutOfBounds));
}

#[test]
fn failure_keeps_what_was_patched_before_it() {
    let mut block = Block::new();
    block.literal_byte(0x11);
    block.literal_byte(0x22);
    block.label_offset_le("missing");
    block.literal_byte(0x33);
    let mut buffer = vec![0xee; 3];
    assert!(block.assemble(0, 6, &mut buffer).is_err());
    assert_eq!(buffer, vec![0x11, 0x22, 0, 0, 0, 0]);
}

#[test]
fn assembling_twice_gives_the_same_result() {
    let mut block = Block::new();
    block.label("start");
    block.literal_byte(0xa9);
    block.literal_byte(0x01);
    block.label_relative_offset("start");
    block.label_offset_le("end");
    block.literal_offset_le(0x0002);
    block.literal_address_le(0xfffc);
    block.label("end");

    let mut first = Vec::new();
    let first_labels = block.assemble(0xc000, 16, &mut first).unwrap();
    let mut second = Vec::new();
    let second_labels = block.assemble(0xc000, 16, &mut second).unwrap();
    assert_eq!(first, second);
    assert_eq!(
        first,
        vec![0xa9, 0x01, 0xfd, 0x09, 0xc0, 0x02, 0xc0, 0xfc, 0xff, 0, 0, 0, 0, 0, 0, 0]
    );
    for name in ["start", "end", "nowhere"] {
        assert_eq!(
            first_labels.address_of_label(name),
            second_labels.address_of_label(name)
        );
    }
    assert_eq!(first_labels.address_of_label("start"), Some(0xc000));
    assert_eq!(first_labels.address_of_label("end"), Some(0xc009));

    // Into the buffer that the first run filled.
    block.assemble(0xc000, 16, &mut first).unwrap();
    assert_eq!(first, second);
}

#[test]
fn failing_twice_gives_the_same_error() {
    let mut block = Block::new();
    block.literal_byte(7);
    block.label_offset_hi("missing");
    let mut first = Vec::new();
    let mut second = vec![1, 2, 3];
    let first_error = match block.assemble(0x10, 4, &mut first) {
        Ok(_) => panic!("the block was assembled"),
        Err(error) => error,
    };
    let second_error = match block.assemble(0x10, 4, &mut second) {
        Ok(_) => panic!("the block was assembled"),
        Err(error) => error,
    };
    assert_eq!(first, second);
    assert_eq!(first, vec![7, 0, 0, 0]);
    assert!(matches!(first_error, Error::UndeclaredLabel(name) if name == "missing"));
    assert!(matches!(second_error, Error::UndeclaredLabel(name) if name == "missing"));
}

#[test]
fn buffer_is_zeroed_and_sized_whatever_it_held() {
    let mut block = Block::new();
    block.set_offset(1);
    block.literal_byte(0x55);

    let mut longer = vec![0xee; 10];
    block.assemble(0, 4, &mut longer).unwrap();
    assert_eq!(longer, vec![0, 0x55, 0, 0]);

    let mut shorter = vec![0xee; 2];
    block.assemble(0, 4, &mut shorter).unwrap();
    assert_eq!(shorter, vec![0, 0x55, 0, 0]);
}

#[test]
fn empty_block_assembles_to_zeroes() {
    let block = Block::new();
    assert_eq!(assembled_bytes(&block, 0x8000, 3), vec![0, 0, 0]);
    assert_eq!(assembled_bytes(&block, 0x8000, 0), Vec::<u8>::new());
}

#[test]
fn literal_offset_is_relocated_and_literal_address_is_not() {
    let mut block = Block::new();
    block.literal_offset_le(0x0123);
    block.literal_address_le(0x0123);
    assert_eq!(assembled_bytes(&block, 0x8000, 4), vec![0x23, 0x81, 0x23, 0x01]);
    assert_eq!(assembled_bytes(&block, 0, 4), vec![0x23, 0x01, 0x23, 0x01]);
}

#[test]
fn relocation_wraps_at_16_bits() {
    let mut block = Block::new();
    block.literal_offset_le(0x0010);
    block.label_offset_le("label");
    block.label_offset_lo("label");
    block.label_offset_hi("label");
    block.set_offset(0x0110);
    block.label("label");
    let mut buffer = Vec::new();
    let assembled = block.assemble(0xfff8, 6, &mut buffer).unwrap();
    // 0x0010 + 0xfff8 = 0x0008 and 0x0110 + 0xfff8 = 0x0108 in 16 bits.
    assert_eq!(buffer, vec![0x08, 0x00, 0x08, 0x01, 0x08, 0x01]);
    assert_eq!(assembled.address_of_label("label"), Some(0x0108));
}

#[test]
fn low_and_high_label_bytes_come_from_the_relocated_address() {
    let mut block = Block::new();
    block.label_offset_lo("vector");
    block.label_offset_hi("vector");
    block.set_offset(0x00ff);
    block.label("vector");
    // 0x00ff + 0x1201 = 0x1300
    assert_eq!(assembled_bytes(&block, 0x1201, 2), vec![0x00, 0x13]);
}

#[test]
fn later_statement_overwrites_an_earlier_one() {
    let mut block = Block::new();
    block.literal_address_le(0x1122);
    block.literal_byte(0x33);
    block.set_offset(1);
    block.literal_address_le(0xaabb);
    block.set_offset(0);
    block.literal_byte(0xcc);
    assert_eq!(assembled_bytes(&block, 0, 4), vec![0xcc, 0xbb, 0xaa, 0]);
}

#[test]
fn statements_may_be_emitted_out_of_order() {
    let mut block = Block::new();
    block.set_offset(4);
    block.literal_byte(4);
    block.set_offset(0);
    block.literal_byte(1);
    block.literal_byte(2);
    assert_eq!(assembled_bytes(&block, 0, 5), vec![1, 2, 0, 0, 4]);
}

#[test]
fn statement_at_the_top_of_the_address_space() {
    let mut block = Block::new();
    block.set_offset(0xffff);
    block.literal_byte(0x77);
    let buffer = assembled_bytes(&block, 0, 0x10000);
    assert_eq!(buffer.len(), 0x10000);
    assert_eq!(buffer[0xffff], 0x77);

    let mut wide = Block::new();
    wide.set_offset(0xffff);
    wide.literal_address_le(0x1234);
    assert!(matches!(error_of(&wide, 0, 0x10000), Error::OffsetOutOfBounds));
    let buffer = assembled_bytes(&wide, 0, 0x10001);
    assert_eq!(buffer[0xffff], 0x34);
    assert_eq!(buffer[0x10000], 0x12);
}

#[test]
fn same_block_assembles_at_several_bases() {
    let mut block = Block::new();
    block.label("entry");
    block.literal_byte(0x4c);
    block.label_offset_le("entry");
    for base in [0x0000u16, 0x0200, 0x8000, 0xc000, 0xffff] {
        let mut buffer = Vec::new();
        let assembled = block.assemble(base, 3, &mut buffer).unwrap();
        assert_eq!(buffer, vec![0x4c, lo(base), hi(base)]);
        assert_eq!(assembled.address_of_label("entry"), Some(base));
    }
}

#[test]
fn assembled_block_knows_only_declared_labels() {
    let mut block = Block::new();
    block.label_offset_le("declared");
    block.label("declared");
    let mut buffer = Vec::new();
    let assembled = block.assemble(0x4000, 2, &mut buffer).unwrap();
    assert_eq!(assembled.address_of_label("declared"), Some(0x4002));
    assert_eq!(assembled.address_of_label("Declared"), None);
    assert_eq!(assembled.address_of_label("declare"), None);
    assert_eq!(assembled.address_of_label(""), None);
}

#[test]
fn reset_vector_can_be_wired_to_a_label() {
    let mut block = Block::new();
    block.set_offset(0x10);
    block.label("reset");
    block.infinite_loop();
    let mut buffer = Vec::new();
    let assembled = block.assemble(0xc000, 0x20, &mut buffer).unwrap();
    let reset = assembled.address_of_label("reset").unwrap();
    assert_eq!(reset, 0xc010);
    assert_eq!((lo(reset), hi(reset)), (0x10, 0xc0));
    assert_eq!(&buffer[0x10..0x13], &[0x4c, 0x10, 0xc0]);
}

#[test]
fn errors_can_be_cloned_and_shown() {
    let error = Error::UndeclaredLabel(String::from("missing"));
    let copy = error.clone();
    assert!(matches!(copy, Error::UndeclaredLabel(name) if name == "missing"));
    assert_eq!(format!("{:?}", Error::OffsetOutOfBounds), "OffsetOutOfBounds");
    assert_eq!(
        format!("{:?}", Error::BranchTargetOutOfRange(String::from("far"))),
        "BranchTargetOutOfRange(\"far\")"
    );
}
