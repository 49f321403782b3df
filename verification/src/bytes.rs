//! Little-endian integers in a byte buffer.

use vstd::prelude::*;

verus! {

/// The 16-bit little-endian integer that starts at index `at`.
pub open spec fn le_u16(bytes: Seq<u8>, at: int) -> int {
    bytes[at] as int + 0x100 * (bytes[at + 1] as int)
}

/// The 32-bit little-endian integer that starts at index `at`.
pub open spec fn le_u32(bytes: Seq<u8>, at: int) -> int {
    le_u16(bytes, at) + 0x1_0000 * le_u16(bytes, at + 2)
}

/// The 64-bit little-endian integer that starts at index `at`.
pub open spec fn le_u64(bytes: Seq<u8>, at: int) -> int {
    le_u32(bytes, at) + 0x1_0000_0000 * le_u32(bytes, at + 4)
}

/// Reads the 16-bit little-endian integer at `at`.
pub(crate) fn read_u16(bytes: &[u8], at: usize) -> (value: u16)
    requires
        at + 2 <= bytes.len(),
    ensures
        value == le_u16(bytes@, at as int),
{
    let low: u16 = bytes[at] as u16;
    let high: u16 = bytes[at + 1] as u16;
    low + 0x100 * high
}

/// Reads the 32-bit little-endian integer at `at`.
pub(crate) fn read_u32(bytes: &[u8], at: usize) -> (value: u32)
    requires
        at + 4 <= bytes.len(),
    ensures
        value == le_u32(bytes@, at as int),
{
    let low: u32 = read_u16(bytes, at) as u32;
    let high: u32 = read_u16(bytes, at + 2) as u32;
    low + 0x1_0000 * high
}

/// Reads the 64-bit little-endian integer at `at`.
pub(crate) fn read_u64(bytes: &[u8], at: usize) -> (value: u64)
    requires
        at + 8 <= bytes.len(),
    ensures
        value == le_u64(bytes@, at as int),
{
    let low: u64 = read_u32(bytes, at) as u64;
    let high: u64 = read_u32(bytes, at + 4) as u64;
    low + 0x1_0000_0000 * high
}

} // verus!
