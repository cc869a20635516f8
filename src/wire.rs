//! Fixed-width integers as they are laid out on the air: little endian,
//! two's complement for the signed ones.
use vstd::prelude::*;

verus! {

/// The signed byte whose two's-complement pattern is `b`.
pub open spec fn i8_of(b: u8) -> i8 {
    if b < 0x80 {
        b as i8
    } else {
        (b as int - 0x100) as i8
    }
}

/// The unsigned 16-bit value stored little endian at `s[at..at + 2]`.
pub open spec fn le_u16(s: Seq<u8>, at: int) -> u16 {
    (s[at] as int + s[at + 1] as int * 0x100) as u16
}

/// The signed 16-bit value stored little endian at `s[at..at + 2]`.
pub open spec fn le_i16(s: Seq<u8>, at: int) -> i16 {
    let u = le_u16(s, at) as int;
    if u < 0x8000 {
        u as i16
    } else {
        (u - 0x1_0000) as i16
    }
}

/// The unsigned 32-bit value stored little endian at `s[at..at + 4]`.
pub open spec fn le_u32(s: Seq<u8>, at: int) -> u32 {
    (s[at] as int + s[at + 1] as int * 0x100 + s[at + 2] as int * 0x1_0000 + s[at + 3] as int
        * 0x100_0000) as u32
}

/// The signed 32-bit value stored little endian at `s[at..at + 4]`.
pub open spec fn le_i32(s: Seq<u8>, at: int) -> i32 {
    let u = le_u32(s, at) as int;
    if u < 0x8000_0000 {
        u as i32
    } else {
        (u - 0x1_0000_0000) as i32
    }
}

pub fn to_i8(b: u8) -> (r: i8)
    ensures
        r == i8_of(b),
{
    if b < 0x80 {
        b as i8
    } else {
        (b as i16 - 0x100) as i8
    }
}

pub fn read_u16_le(d: &[u8], at: usize) -> (r: u16)
    requires
        at + 2 <= d@.len(),
    ensures
        r == le_u16(d@, at as int),
{
    d[at] as u16 + d[at + 1] as u16 * 0x100
}

pub fn read_i16_le(d: &[u8], at: usize) -> (r: i16)
    requires
        at + 2 <= d@.len(),
    ensures
        r == le_i16(d@, at as int),
{
    let u = read_u16_le(d, at);
    if u < 0x8000 {
        u as i16
    } else {
        (u as i32 - 0x1_0000) as i16
    }
}

pub fn read_u32_le(d: &[u8], at: usize) -> (r: u32)
    requires
        at + 4 <= d@.len(),
    ensures
        r == le_u32(d@, at as int),
{
    d[at] as u32 + d[at + 1] as u32 * 0x100 + d[at + 2] as u32 * 0x1_0000 + d[at + 3] as u32
        * 0x100_0000
}

pub fn read_i32_le(d: &[u8], at: usize) -> (r: i32)
    requires
        at + 4 <= d@.len(),
    ensures
        r == le_i32(d@, at as int),
{
    let u = read_u32_le(d, at);
    if u < 0x8000_0000 {
        u as i32
    } else {
        (u as i64 - 0x1_0000_0000) as i32
    }
}

} // verus!
