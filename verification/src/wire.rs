//! Little-endian integer fields, as they lie in a frame and in its payload.
//!
//! The spec functions say what the bytes of a field mean; the executable
//! functions read and write fields through the `byteorder` crate.

use byteorder::{ByteOrder, LittleEndian, WriteBytesExt};
use vstd::prelude::*;

verus! {

/// The 16-bit number whose little-endian bytes are the first two of `b`.
pub open spec fn u16_le(b: Seq<u8>) -> u16
    recommends
        b.len() >= 2,
{
    (b[0] as int + 256 * (b[1] as int)) as u16
}

/// The little-endian bytes of a 16-bit number, lowest byte first.
pub open spec fn u16_le_bytes(v: u16) -> Seq<u8> {
    seq![(v % 256) as u8, (v / 256) as u8]
}

/// The 32-bit number whose little-endian bytes are the first four of `b`.
pub open spec fn u32_le(b: Seq<u8>) -> u32
    recommends
        b.len() >= 4,
{
    (b[0] as int + 256 * (b[1] as int) + 65536 * (b[2] as int) + 16777216 * (b[3] as int)) as u32
}

/// The little-endian bytes of a 32-bit number, lowest byte first.
pub open spec fn u32_le_bytes(v: u32) -> Seq<u8> {
    seq![
        (v % 256) as u8,
        (v / 256 % 256) as u8,
        (v / 256 / 256 % 256) as u8,
        (v / 256 / 256 / 256) as u8,
    ]
}

/// Writing a 16-bit number and reading it back gives the number, whatever follows
/// its two bytes.
pub proof fn lemma_u16_le_round_trip(v: u16, rest: Seq<u8>)
    ensures
        u16_le_bytes(v).len() == 2,
        u16_le(u16_le_bytes(v) + rest) == v,
{
    let b = u16_le_bytes(v) + rest;
    assert(b[0] == (v % 256) as u8);
    assert(b[1] == (v / 256) as u8);
}

/// Writing a 32-bit number and reading it back gives the number, whatever follows
/// its four bytes.
pub proof fn lemma_u32_le_round_trip(v: u32, rest: Seq<u8>)
    ensures
        u32_le_bytes(v).len() == 4,
        u32_le(u32_le_bytes(v) + rest) == v,
{
    let b = u32_le_bytes(v) + rest;
    let q1: int = v as int / 256;
    let q2: int = q1 / 256;
    let q3: int = q2 / 256;
    assert(v as int == 256 * q1 + v as int % 256);
    assert(q1 == 256 * q2 + q1 % 256);
    assert(q2 == 256 * q3 + q2 % 256);
    assert(0 <= q3 < 256);
    assert(b[0] as int == v as int % 256);
    assert(b[1] as int == q1 % 256);
    assert(b[2] as int == q2 % 256);
    assert(b[3] as int == q3);
}

/// Reads a 16-bit field with `byteorder::LittleEndian::read_u16`, which takes the
/// first two bytes of `buf` as a little-endian number and panics on a shorter slice.
#[verifier::external_body]
pub(crate) fn read_u16_le(buf: &[u8]) -> (r: u16)
    requires
        buf@.len() >= 2,
    ensures
        r == u16_le(buf@),
{
    LittleEndian::read_u16(buf)
}

/// Reads a 32-bit field with `byteorder::LittleEndian::read_u32`, which takes the
/// first four bytes of `buf` as a little-endian number and panics on a shorter slice.
#[verifier::external_body]
pub(crate) fn read_u32_le(buf: &[u8]) -> (r: u32)
    requires
        buf@.len() >= 4,
    ensures
        r == u32_le(buf@),
{
    LittleEndian::read_u32(buf)
}

/// Appends a 16-bit field with `byteorder::WriteBytesExt::write_u16` in
/// little-endian order. On a `Vec` the write cannot fail; it adds the two bytes of
/// `n`, lowest first, and leaves what was there in place.
#[verifier::external_body]
pub(crate) fn write_u16_le(dst: &mut Vec<u8>, n: u16)
    ensures
        final(dst)@ == old(dst)@ + u16_le_bytes(n),
{
    dst.write_u16::<LittleEndian>(n).unwrap();
}

/// Appends a 32-bit field with `byteorder::WriteBytesExt::write_u32` in
/// little-endian order. On a `Vec` the write cannot fail; it adds the four bytes of
/// `n`, lowest first, and leaves what was there in place.
#[verifier::external_body]
pub(crate) fn write_u32_le(dst: &mut Vec<u8>, n: u32)
    ensures
        final(dst)@ == old(dst)@ + u32_le_bytes(n),
{
    dst.write_u32::<LittleEndian>(n).unwrap();
}

/// Appends a run of bytes.
pub(crate) fn append_bytes(dst: &mut Vec<u8>, src: &[u8])
    ensures
        final(dst)@ == old(dst)@ + src@,
{
    let mut i: usize = 0;
    while i < src.len()
        invariant
            i <= src@.len(),
            dst@ == old(dst)@ + src@.subrange(0, i as int),
        decreases src@.len() - i,
    {
        dst.push(src[i]);
        i += 1;
    }
}

} // verus!
