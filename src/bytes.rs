//! Fixed-width integers read from a byte buffer in a given byte order.

use vstd::prelude::*;
use crate::signature::Endianness;

verus! {

/// The unsigned 16-bit integer stored at `off`.
pub open spec fn u16_at(s: Seq<u8>, off: int, e: Endianness) -> u16 {
    match e {
        Endianness::BigEndian => (s[off] * 256 + s[off + 1]) as u16,
        Endianness::LittleEndian => (s[off + 1] * 256 + s[off]) as u16,
    }
}

/// The unsigned 32-bit integer stored at `off`.
pub open spec fn u32_at(s: Seq<u8>, off: int, e: Endianness) -> u32 {
    match e {
        Endianness::BigEndian => (s[off] * 0x100_0000 + s[off + 1] * 0x1_0000 + s[off + 2] * 0x100
            + s[off + 3]) as u32,
        Endianness::LittleEndian => (s[off + 3] * 0x100_0000 + s[off + 2] * 0x1_0000 + s[off + 1]
            * 0x100 + s[off]) as u32,
    }
}

/// The unsigned 64-bit integer stored at `off`.
pub open spec fn u64_at(s: Seq<u8>, off: int, e: Endianness) -> u64 {
    match e {
        Endianness::BigEndian => (u32_at(s, off, e) * 0x1_0000_0000 + u32_at(s, off + 4, e)) as u64,
        Endianness::LittleEndian => (u32_at(s, off + 4, e) * 0x1_0000_0000 + u32_at(s, off, e)) as u64,
    }
}

/// The two's complement reading of a 32-bit pattern.
pub open spec fn i32_of(u: u32) -> i32 {
    if u < 0x8000_0000 {
        u as i32
    } else {
        (u - 0x1_0000_0000) as i32
    }
}

/// The signed 32-bit integer stored at `off`.
pub open spec fn i32_at(s: Seq<u8>, off: int, e: Endianness) -> i32 {
    i32_of(u32_at(s, off, e))
}

pub fn read_u16(b: &[u8], off: usize, e: Endianness) -> (r: u16)
    requires
        off + 2 <= b.len(),
    ensures
        r == u16_at(b@, off as int, e),
{
    let (hi, lo) = match e {
        Endianness::BigEndian => (b[off], b[off + 1]),
        Endianness::LittleEndian => (b[off + 1], b[off]),
    };
    (hi as u16) * 256 + (lo as u16)
}

pub fn read_u32(b: &[u8], off: usize, e: Endianness) -> (r: u32)
    requires
        off + 4 <= b.len(),
    ensures
        r == u32_at(b@, off as int, e),
{
    let (b0, b1, b2, b3) = match e {
        Endianness::BigEndian => (b[off], b[off + 1], b[off + 2], b[off + 3]),
        Endianness::LittleEndian => (b[off + 3], b[off + 2], b[off + 1], b[off]),
    };
    (b0 as u32) * 0x100_0000 + (b1 as u32) * 0x1_0000 + (b2 as u32) * 0x100 + (b3 as u32)
}

pub fn read_u64(b: &[u8], off: usize, e: Endianness) -> (r: u64)
    requires
        off + 8 <= b.len(),
    ensures
        r == u64_at(b@, off as int, e),
{
    let first = read_u32(b, off, e);
    let second = read_u32(b, off + 4, e);
    let (hi, lo) = match e {
        Endianness::BigEndian => (first, second),
        Endianness::LittleEndian => (second, first),
    };
    (hi as u64) * 0x1_0000_0000 + (lo as u64)
}

pub fn read_i32(b: &[u8], off: usize, e: Endianness) -> (r: i32)
    requires
        off + 4 <= b.len(),
    ensures
        r == i32_at(b@, off as int, e),
{
    let u = read_u32(b, off, e);
    if u < 0x8000_0000 {
        u as i32
    } else {
        ((u - 0x8000_0000) as i32) - 0x7fff_ffff - 1
    }
}

} // verus!
