//! The little-endian wire encoding of multi-byte scalars, as specification
//! functions: the mathematical meaning that the reader and writer contracts
//! are stated against.

use vstd::prelude::*;

verus! {

/// The value of two little-endian bytes.
pub open spec fn le_u16(s: Seq<u8>) -> u16
    recommends
        s.len() == 2,
{
    (s[0] + s[1] * 0x100) as u16
}

/// The value of four little-endian bytes.
pub open spec fn le_u32(s: Seq<u8>) -> u32
    recommends
        s.len() == 4,
{
    (s[0] + s[1] * 0x100 + s[2] * 0x1_0000 + s[3] * 0x100_0000) as u32
}

/// The value of eight little-endian bytes.
pub open spec fn le_u64(s: Seq<u8>) -> u64
    recommends
        s.len() == 8,
{
    (le_u32(s.subrange(0, 4)) + le_u32(s.subrange(4, 8)) * 0x1_0000_0000) as u64
}

/// The value of sixteen little-endian bytes.
pub open spec fn le_u128(s: Seq<u8>) -> u128
    recommends
        s.len() == 16,
{
    (le_u64(s.subrange(0, 8)) + le_u64(s.subrange(8, 16)) * 0x1_0000_0000_0000_0000) as u128
}

/// Consecutive pairs of bytes decoded as little-endian 16-bit values.
pub open spec fn le_u16_seq(bytes: Seq<u8>) -> Seq<u16> {
    Seq::new((bytes.len() / 2) as nat, |i: int| le_u16(bytes.subrange(2 * i, 2 * i + 2)))
}

/// Consecutive quadruples of bytes decoded as little-endian 32-bit values.
pub open spec fn le_u32_seq(bytes: Seq<u8>) -> Seq<u32> {
    Seq::new((bytes.len() / 4) as nat, |i: int| le_u32(bytes.subrange(4 * i, 4 * i + 4)))
}

/// Consecutive groups of eight bytes decoded as little-endian 64-bit values.
pub open spec fn le_u64_seq(bytes: Seq<u8>) -> Seq<u64> {
    Seq::new((bytes.len() / 8) as nat, |i: int| le_u64(bytes.subrange(8 * i, 8 * i + 8)))
}

/// Consecutive groups of sixteen bytes decoded as little-endian 128-bit values.
pub open spec fn le_u128_seq(bytes: Seq<u8>) -> Seq<u128> {
    Seq::new((bytes.len() / 16) as nat, |i: int| le_u128(bytes.subrange(16 * i, 16 * i + 16)))
}

/// The two little-endian bytes of a 16-bit value.
pub open spec fn u16_to_le(v: u16) -> Seq<u8> {
    seq![(v % 0x100) as u8, (v / 0x100) as u8]
}

/// The four little-endian bytes of a 32-bit value.
pub open spec fn u32_to_le(v: u32) -> Seq<u8> {
    seq![
        (v % 0x100) as u8,
        ((v / 0x100) % 0x100) as u8,
        ((v / 0x1_0000) % 0x100) as u8,
        ((v / 0x100_0000) % 0x100) as u8,
    ]
}

/// The eight little-endian bytes of a 64-bit value.
pub open spec fn u64_to_le(v: u64) -> Seq<u8> {
    u32_to_le((v % 0x1_0000_0000) as u32) + u32_to_le((v / 0x1_0000_0000) as u32)
}

/// The sixteen little-endian bytes of a 128-bit value.
pub open spec fn u128_to_le(v: u128) -> Seq<u8> {
    u64_to_le((v % 0x1_0000_0000_0000_0000) as u64) + u64_to_le(
        (v / 0x1_0000_0000_0000_0000) as u64,
    )
}

/// The two's-complement reading of one byte.
pub open spec fn as_i8(b: u8) -> i8 {
    if b < 128 {
        b as i8
    } else {
        (b - 256) as i8
    }
}

/// Reads one byte as a signed value, two's complement.
pub fn byte_as_i8(b: u8) -> (r: i8)
    ensures
        r == as_i8(b),
{
    if b < 128 {
        b as i8
    } else {
        (b as i16 - 256) as i8
    }
}

/// Decoding the little-endian bytes of a value gives the value back.
pub proof fn lemma_le_u16_round_trip(v: u16)
    ensures
        u16_to_le(v).len() == 2,
        le_u16(u16_to_le(v)) == v,
{
}

/// Decoding the little-endian bytes of a value gives the value back.
pub proof fn lemma_le_u32_round_trip(v: u32)
    ensures
        u32_to_le(v).len() == 4,
        le_u32(u32_to_le(v)) == v,
{
}

/// Decoding the little-endian bytes of a value gives the value back.
pub proof fn lemma_le_u64_round_trip(v: u64)
    ensures
        u64_to_le(v).len() == 8,
        le_u64(u64_to_le(v)) == v,
{
    let lo = (v % 0x1_0000_0000) as u32;
    let hi = (v / 0x1_0000_0000) as u32;
    lemma_le_u32_round_trip(lo);
    lemma_le_u32_round_trip(hi);
    assert(u64_to_le(v).subrange(0, 4) =~= u32_to_le(lo));
    assert(u64_to_le(v).subrange(4, 8) =~= u32_to_le(hi));
}

/// Decoding the little-endian bytes of a value gives the value back.
pub proof fn lemma_le_u128_round_trip(v: u128)
    ensures
        u128_to_le(v).len() == 16,
        le_u128(u128_to_le(v)) == v,
{
    let lo = (v % 0x1_0000_0000_0000_0000) as u64;
    let hi = (v / 0x1_0000_0000_0000_0000) as u64;
    lemma_le_u64_round_trip(lo);
    lemma_le_u64_round_trip(hi);
    assert(u128_to_le(v).subrange(0, 8) =~= u64_to_le(lo));
    assert(u128_to_le(v).subrange(8, 16) =~= u64_to_le(hi));
}

} // verus!
