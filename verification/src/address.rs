//! Splitting 16-bit addresses into bytes and putting them back together.

use vstd::prelude::*;

verus! {

/// A location in the processor's address space.
pub type Address = u16;

/// The low eight bits of `address`.
pub open spec fn lo_spec(address: u16) -> u8 {
    (address % 0x100) as u8
}

/// The high eight bits of `address`.
pub open spec fn hi_spec(address: u16) -> u8 {
    (address / 0x100) as u8
}

/// The address whose low byte is `lo` and whose high byte is `hi`.
pub open spec fn from_u8_lo_hi_spec(lo: u8, hi: u8) -> u16 {
    (hi * 0x100 + lo) as u16
}

/// The low byte of `address`.
#[verifier::when_used_as_spec(lo_spec)]
pub fn lo(address: Address) -> (byte: u8)
    ensures
        byte == lo_spec(address),
{
    assert(address & 0xff == address % 0x100) by (bit_vector);
    (address & 0xff) as u8
}

/// The high byte of `address`.
#[verifier::when_used_as_spec(hi_spec)]
pub fn hi(address: Address) -> (byte: u8)
    ensures
        byte == hi_spec(address),
{
    assert(address >> 8 == address / 0x100) by (bit_vector);
    (address >> 8) as u8
}

/// The address with low byte `lo` and high byte `hi`.
#[verifier::when_used_as_spec(from_u8_lo_hi_spec)]
pub fn from_u8_lo_hi(lo: u8, hi: u8) -> (address: Address)
    ensures
        address == from_u8_lo_hi_spec(lo, hi),
{
    let wide_lo: u16 = lo as u16;
    let wide_hi: u16 = hi as u16;
    assert((wide_hi << 8) | wide_lo == wide_hi * 0x100 + wide_lo) by (bit_vector)
        requires
            wide_lo < 0x100,
            wide_hi < 0x100,
    ;
    (wide_hi << 8) | wide_lo
}

/// Same as [`from_u8_lo_hi`], with the high byte first.
pub fn from_u8_hi_lo(hi: u8, lo: u8) -> (address: Address)
    ensures
        address == from_u8_lo_hi_spec(lo, hi),
{
    from_u8_lo_hi(lo, hi)
}

/// Whether `a` and `b` lie in different pages of 256 bytes, that is, differ
/// in their high byte.
pub fn on_different_pages(a: Address, b: Address) -> (different: bool)
    ensures
        different == (hi_spec(a) != hi_spec(b)),
{
    hi(a) != hi(b)
}

/// Whether `a` and `b` lie in the same page of 256 bytes, that is, share
/// their high byte.
pub fn same_page(a: Address, b: Address) -> (same: bool)
    ensures
        same == (hi_spec(a) == hi_spec(b)),
{
    hi(a) == hi(b)
}

/// The low four bits of `byte`.
pub(crate) fn lo_nibble(byte: u8) -> (nibble: u8)
    ensures
        nibble == byte % 16,
{
    assert(byte & 0xf == byte % 16) by (bit_vector);
    byte & 0xf
}

/// The high four bits of `byte`.
pub(crate) fn hi_nibble(byte: u8) -> (nibble: u8)
    ensures
        nibble == byte / 16,
{
    assert(byte >> 4 == byte / 16) by (bit_vector);
    byte >> 4
}

/// Taking an address apart and putting it back together gives the address.
pub proof fn lemma_split_then_join(address: u16)
    ensures
        from_u8_lo_hi_spec(lo_spec(address), hi_spec(address)) == address,
{
}

/// Putting two bytes together and taking the address apart gives the bytes.
pub proof fn lemma_join_then_split(lo: u8, hi: u8)
    ensures
        lo_spec(from_u8_lo_hi_spec(lo, hi)) == lo,
        hi_spec(from_u8_lo_hi_spec(lo, hi)) == hi,
{
}

/// Two addresses with the same bytes are the same address.
pub proof fn lemma_bytes_determine_address(a: u16, b: u16)
    requires
        lo_spec(a) == lo_spec(b),
        hi_spec(a) == hi_spec(b),
    ensures
        a == b,
{
}

} // verus!
