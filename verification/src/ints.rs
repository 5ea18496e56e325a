//! Two's-complement reinterpretation between the unsigned bit patterns the
//! engine's buffers hold and the signed values the field model carries.

use vstd::prelude::*;

verus! {

/// The signed value whose 8-bit two's-complement pattern is `u`.
pub open spec fn spec_signed8(u: int) -> int {
    if u < 0x80 {
        u
    } else {
        u - 0x100
    }
}

/// The 8-bit two's-complement pattern of the signed value `v`.
pub open spec fn spec_unsigned8(v: int) -> int {
    if v >= 0 {
        v
    } else {
        v + 0x100
    }
}

/// The signed value whose 16-bit two's-complement pattern is `u`.
pub open spec fn spec_signed16(u: int) -> int {
    if u < 0x8000 {
        u
    } else {
        u - 0x10000
    }
}

/// The 16-bit two's-complement pattern of the signed value `v`.
pub open spec fn spec_unsigned16(v: int) -> int {
    if v >= 0 {
        v
    } else {
        v + 0x10000
    }
}

/// The signed value whose 32-bit two's-complement pattern is `u`.
pub open spec fn spec_signed32(u: int) -> int {
    if u < 0x80000000 {
        u
    } else {
        u - 0x100000000
    }
}

/// The 32-bit two's-complement pattern of the signed value `v`.
pub open spec fn spec_unsigned32(v: int) -> int {
    if v >= 0 {
        v
    } else {
        v + 0x100000000
    }
}

/// The signed value whose 64-bit two's-complement pattern is `u`.
pub open spec fn spec_signed64(u: int) -> int {
    if u < 0x8000000000000000 {
        u
    } else {
        u - 0x10000000000000000
    }
}

/// The 64-bit two's-complement pattern of the signed value `v`.
pub open spec fn spec_unsigned64(v: int) -> int {
    if v >= 0 {
        v
    } else {
        v + 0x10000000000000000
    }
}

pub fn u8_to_i8_bits(u: u8) -> (r: i8)
    ensures
        r as int == spec_signed8(u as int),
{
    if u < 0x80 {
        u as i8
    } else {
        ((u as i16) - 0x100) as i8
    }
}

pub fn i8_to_u8_bits(v: i8) -> (r: u8)
    ensures
        r as int == spec_unsigned8(v as int),
{
    if v >= 0 {
        v as u8
    } else {
        ((v as i16) + 0x100) as u8
    }
}

pub fn u16_to_i16_bits(u: u16) -> (r: i16)
    ensures
        r as int == spec_signed16(u as int),
{
    if u < 0x8000 {
        u as i16
    } else {
        ((u as i32) - 0x10000) as i16
    }
}

pub fn i16_to_u16_bits(v: i16) -> (r: u16)
    ensures
        r as int == spec_unsigned16(v as int),
{
    if v >= 0 {
        v as u16
    } else {
        ((v as i32) + 0x10000) as u16
    }
}

pub fn u32_to_i32_bits(u: u32) -> (r: i32)
    ensures
        r as int == spec_signed32(u as int),
{
    if u < 0x80000000 {
        u as i32
    } else {
        ((u as i64) - 0x100000000) as i32
    }
}

pub fn i32_to_u32_bits(v: i32) -> (r: u32)
    ensures
        r as int == spec_unsigned32(v as int),
{
    if v >= 0 {
        v as u32
    } else {
        ((v as i64) + 0x100000000) as u32
    }
}

pub fn u64_to_i64_bits(u: u64) -> (r: i64)
    ensures
        r as int == spec_signed64(u as int),
{
    if u < 0x8000000000000000 {
        u as i64
    } else {
        ((u as i128) - 0x10000000000000000) as i64
    }
}

pub fn i64_to_u64_bits(v: i64) -> (r: u64)
    ensures
        r as int == spec_unsigned64(v as int),
{
    if v >= 0 {
        v as u64
    } else {
        ((v as i128) + 0x10000000000000000) as u64
    }
}

/// Reading back an 8-bit pattern yields the value it was written from, and
/// the pattern of a read value writes back unchanged.
pub proof fn lemma_signed8_round_trip(v: int, u: int)
    ensures
        -0x80 <= v < 0x80 ==> spec_signed8(spec_unsigned8(v)) == v,
        0 <= u < 0x100 ==> spec_unsigned8(spec_signed8(u)) == u,
{
}

/// As `lemma_signed8_round_trip`, for 16-bit patterns.
pub proof fn lemma_signed16_round_trip(v: int, u: int)
    ensures
        -0x8000 <= v < 0x8000 ==> spec_signed16(spec_unsigned16(v)) == v,
        0 <= u < 0x10000 ==> spec_unsigned16(spec_signed16(u)) == u,
{
}

/// As `lemma_signed8_round_trip`, for 32-bit patterns.
pub proof fn lemma_signed32_round_trip(v: int, u: int)
    ensures
        -0x80000000 <= v < 0x80000000 ==> spec_signed32(spec_unsigned32(v)) == v,
        0 <= u < 0x100000000 ==> spec_unsigned32(spec_signed32(u)) == u,
{
}

/// As `lemma_signed8_round_trip`, for 64-bit patterns.
pub proof fn lemma_signed64_round_trip(v: int, u: int)
    ensures
        -0x8000000000000000 <= v < 0x8000000000000000 ==> spec_signed64(spec_unsigned64(v)) == v,
        0 <= u < 0x10000000000000000 ==> spec_unsigned64(spec_signed64(u)) == u,
{
}

} // verus!
