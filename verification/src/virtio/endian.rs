//! Little-endian encoding of register and wire values.
//!
//! The byte layout is stated once, as spec functions; the executable
//! conversions are those of the `byteorder` and `data_model` crates.
use byteorder::ByteOrder;
use byteorder::LittleEndian;
use data_model::DataInit;
use data_model::Le64;
use vstd::prelude::*;

verus! {

/// The two bytes of `v`, least significant first.
pub open spec fn le_bytes_u16(v: u16) -> Seq<u8> {
    seq![(v & 0xff) as u8, (v >> 8) as u8]
}

/// The four bytes of `v`, least significant first.
pub open spec fn le_bytes_u32(v: u32) -> Seq<u8> {
    seq![
        (v & 0xff) as u8,
        ((v >> 8) & 0xff) as u8,
        ((v >> 16) & 0xff) as u8,
        (v >> 24) as u8,
    ]
}

/// The eight bytes of `v`, least significant first.
pub open spec fn le_bytes_u64(v: u64) -> Seq<u8> {
    seq![
        (v & 0xff) as u8,
        ((v >> 8) & 0xff) as u8,
        ((v >> 16) & 0xff) as u8,
        ((v >> 24) & 0xff) as u8,
        ((v >> 32) & 0xff) as u8,
        ((v >> 40) & 0xff) as u8,
        ((v >> 48) & 0xff) as u8,
        (v >> 56) as u8,
    ]
}

/// The value whose little-endian encoding starts `b`.
pub open spec fn le_u16(b: Seq<u8>) -> u16
    recommends
        b.len() >= 2,
{
    (b[0] as u16) | ((b[1] as u16) << 8)
}

/// The value whose little-endian encoding starts `b`.
pub open spec fn le_u32(b: Seq<u8>) -> u32
    recommends
        b.len() >= 4,
{
    (b[0] as u32) | ((b[1] as u32) << 8) | ((b[2] as u32) << 16) | ((b[3] as u32) << 24)
}

/// The value whose little-endian encoding starts `b`.
pub open spec fn le_u64(b: Seq<u8>) -> u64
    recommends
        b.len() >= 8,
{
    (b[0] as u64) | ((b[1] as u64) << 8) | ((b[2] as u64) << 16) | ((b[3] as u64) << 24) | ((
    b[4] as u64) << 32) | ((b[5] as u64) << 40) | ((b[6] as u64) << 48) | ((b[7] as u64) << 56)
}

/// `byteorder::LittleEndian::read_u16`: decodes the first two bytes of `buf`
/// as a little-endian value. The call panics on a shorter buffer.
#[verifier::external_body]
pub(crate) fn read_u16(buf: &[u8]) -> (r: u16)
    requires
        buf@.len() >= 2,
    ensures
        r == le_u16(buf@),
{
    LittleEndian::read_u16(buf)
}

/// `byteorder::LittleEndian::read_u32`: decodes the first four bytes of `buf`
/// as a little-endian value. The call panics on a shorter buffer.
#[verifier::external_body]
pub(crate) fn read_u32(buf: &[u8]) -> (r: u32)
    requires
        buf@.len() >= 4,
    ensures
        r == le_u32(buf@),
{
    LittleEndian::read_u32(buf)
}

/// `byteorder::LittleEndian::read_u64`: decodes the first eight bytes of
/// `buf` as a little-endian value. The call panics on a shorter buffer.
#[verifier::external_body]
pub(crate) fn read_u64(buf: &[u8]) -> (r: u64)
    requires
        buf@.len() >= 8,
    ensures
        r == le_u64(buf@),
{
    LittleEndian::read_u64(buf)
}

/// `byteorder::LittleEndian::write_u16`: overwrites the first two bytes of
/// `buf` with the little-endian encoding of `n` and leaves the rest alone.
/// The call panics on a shorter buffer.
#[verifier::external_body]
pub(crate) fn write_u16(buf: &mut [u8], n: u16)
    requires
        old(buf)@.len() >= 2,
    ensures
        final(buf)@ == le_bytes_u16(n) + old(buf)@.skip(2),
{
    LittleEndian::write_u16(buf, n)
}

/// `byteorder::LittleEndian::write_u32`: overwrites the first four bytes of
/// `buf` with the little-endian encoding of `n` and leaves the rest alone.
/// The call panics on a shorter buffer.
#[verifier::external_body]
pub(crate) fn write_u32(buf: &mut [u8], n: u32)
    requires
        old(buf)@.len() >= 4,
    ensures
        final(buf)@ == le_bytes_u32(n) + old(buf)@.skip(4),
{
    LittleEndian::write_u32(buf, n)
}

/// `byteorder::LittleEndian::write_u64`: overwrites the first eight bytes of
/// `buf` with the little-endian encoding of `n` and leaves the rest alone.
/// The call panics on a shorter buffer.
#[verifier::external_body]
pub(crate) fn write_u64(buf: &mut [u8], n: u64)
    requires
        old(buf)@.len() >= 8,
    ensures
        final(buf)@ == le_bytes_u64(n) + old(buf)@.skip(8),
{
    LittleEndian::write_u64(buf, n)
}

/// `data_model::Le64::from` followed by `DataInit::as_slice`: the eight
/// bytes that a little-endian 64-bit field occupies in memory.
#[verifier::external_body]
pub(crate) fn le64_field(v: u64) -> (r: Vec<u8>)
    ensures
        r@ == le_bytes_u64(v),
{
    Le64::from(v).as_slice().to_vec()
}

/// Decoding undoes encoding, at each width.
pub proof fn lemma_le_round_trip(a: u16, b: u32, c: u64)
    ensures
        le_u16(le_bytes_u16(a)) == a,
        le_u32(le_bytes_u32(b)) == b,
        le_u64(le_bytes_u64(c)) == c,
{
    assert(((a & 0xff) as u8 as u16) | (((a >> 8) as u8 as u16) << 8) == a) by (bit_vector);
    assert(((b & 0xff) as u8 as u32) | ((((b >> 8) & 0xff) as u8 as u32) << 8) | ((((b >> 16)
        & 0xff) as u8 as u32) << 16) | (((b >> 24) as u8 as u32) << 24) == b) by (bit_vector);
    assert(((c & 0xff) as u8 as u64) | ((((c >> 8) & 0xff) as u8 as u64) << 8) | ((((c >> 16)
        & 0xff) as u8 as u64) << 16) | ((((c >> 24) & 0xff) as u8 as u64) << 24) | ((((c >> 32)
        & 0xff) as u8 as u64) << 32) | ((((c >> 40) & 0xff) as u8 as u64) << 40) | ((((c >> 48)
        & 0xff) as u8 as u64) << 48) | (((c >> 56) as u8 as u64) << 56) == c) by (bit_vector);
}

} // verus!
