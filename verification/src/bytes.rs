//! Numbers in memory: two, four or eight bytes, lowest byte first.

use vstd::prelude::*;

verus! {

/// The number that two bytes from `at` on hold, lowest byte first.
pub open spec fn le16(bytes: Seq<u8>, at: int) -> int {
    bytes[at] + bytes[at + 1] * 0x100
}

/// The number that four bytes from `at` on hold, lowest byte first.
pub open spec fn le32(bytes: Seq<u8>, at: int) -> int {
    bytes[at] + bytes[at + 1] * 0x100 + bytes[at + 2] * 0x1_0000 + bytes[at + 3] * 0x100_0000
}

/// The number that eight bytes from `at` on hold, lowest byte first.
pub open spec fn le64(bytes: Seq<u8>, at: int) -> int {
    le32(bytes, at) + le32(bytes, at + 4) * 0x1_0000_0000
}

/// The number that the two bytes from `at` on hold.
pub fn read_u16(bytes: &[u8], at: usize) -> (value: u16)
    requires
        at + 2 <= bytes.len(),
    ensures
        value == le16(bytes@, at as int),
{
    bytes[at] as u16 + bytes[at + 1] as u16 * 0x100
}

/// The number that the four bytes from `at` on hold.
pub fn read_u32(bytes: &[u8], at: usize) -> (value: u32)
    requires
        at + 4 <= bytes.len(),
    ensures
        value == le32(bytes@, at as int),
{
    bytes[at] as u32 + bytes[at + 1] as u32 * 0x100 + bytes[at + 2] as u32 * 0x1_0000 + bytes[at
        + 3] as u32 * 0x100_0000
}

/// The number that the eight bytes from `at` on hold.
pub fn read_u64(bytes: &[u8], at: usize) -> (value: u64)
    requires
        at + 8 <= bytes.len(),
    ensures
        value == le64(bytes@, at as int),
{
    read_u32(bytes, at) as u64 + read_u32(bytes, at + 4) as u64 * 0x1_0000_0000
}

/// The two bytes that hold `value`, lowest byte first.
pub fn u16_bytes(value: u16) -> (bytes: [u8; 2])
    ensures
        le16(bytes@, 0) == value,
{
    [(value % 0x100) as u8, (value / 0x100) as u8]
}

/// The four bytes that hold `value`, lowest byte first.
pub fn u32_bytes(value: u32) -> (bytes: [u8; 4])
    ensures
        le32(bytes@, 0) == value,
{
    [
        (value % 0x100) as u8,
        (value / 0x100 % 0x100) as u8,
        (value / 0x1_0000 % 0x100) as u8,
        (value / 0x100_0000) as u8,
    ]
}

} // verus!
