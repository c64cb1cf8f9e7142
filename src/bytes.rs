use vstd::prelude::*;

verus! {

/// The little-endian `u64` held by the eight bytes of `s` at `o`.
pub open spec fn u64_le(s: Seq<u8>, o: int) -> int {
    s[o] + 0x100 * s[o + 1] + 0x1_0000 * s[o + 2] + 0x100_0000 * s[o + 3]
        + 0x1_0000_0000 * s[o + 4] + 0x100_0000_0000 * s[o + 5]
        + 0x1_0000_0000_0000 * s[o + 6] + 0x100_0000_0000_0000 * s[o + 7]
}

/// The little-endian `u16` held by the two bytes of `s` at `o`.
pub open spec fn u16_le(s: Seq<u8>, o: int) -> int {
    s[o] + 0x100 * s[o + 1]
}

/// Reads a little-endian `u64` at `off`.
pub fn read_u64(data: &[u8], off: usize) -> (r: u64)
    requires
        off + 8 <= data@.len(),
    ensures
        r == u64_le(data@, off as int),
{
    let b0 = data[off] as u64;
    let b1 = data[off + 1] as u64;
    let b2 = data[off + 2] as u64;
    let b3 = data[off + 3] as u64;
    let b4 = data[off + 4] as u64;
    let b5 = data[off + 5] as u64;
    let b6 = data[off + 6] as u64;
    let b7 = data[off + 7] as u64;
    b0 + 0x100 * b1 + 0x1_0000 * b2 + 0x100_0000 * b3 + 0x1_0000_0000 * b4 + 0x100_0000_0000 * b5
        + 0x1_0000_0000_0000 * b6 + 0x100_0000_0000_0000 * b7
}

/// Reads a little-endian `u16` at `off`.
pub fn read_u16(data: &[u8], off: usize) -> (r: u16)
    requires
        off + 2 <= data@.len(),
    ensures
        r == u16_le(data@, off as int),
{
    let b0 = data[off] as u16;
    let b1 = data[off + 1] as u16;
    b0 + 0x100 * b1
}

} // verus!
