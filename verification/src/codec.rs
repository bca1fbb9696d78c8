//! Decoding of the sealed computation output.
//!
//! The secure-computation network returns the two result fields (winner and
//! damage) as fixed-width blocks; each carries one little-endian 64-bit value
//! in its first eight bytes. The decode is written and proved here rather
//! than taken on trust: its whole behaviour is the eight-term polynomial
//! below.

use vstd::prelude::*;

verus! {

/// The little-endian 64-bit value held in the first eight bytes of `s`.
pub open spec fn le_u64_of(s: Seq<u8>) -> int
    recommends
        s.len() >= 8,
{
    s[0] + s[1] * 0x100 + s[2] * 0x1_0000 + s[3] * 0x100_0000 + s[4] * 0x1_0000_0000 + s[5]
        * 0x100_0000_0000 + s[6] * 0x1_0000_0000_0000 + s[7] * 0x100_0000_0000_0000
}

/// Reads the little-endian 64-bit value from the first eight bytes of a
/// result block; the remaining bytes are padding and are ignored.
pub fn u64_from_le_prefix(block: &[u8; 32]) -> (r: u64)
    ensures
        r == le_u64_of(block@),
{
    let b0: u64 = block[0] as u64;
    let b1: u64 = block[1] as u64;
    let b2: u64 = block[2] as u64;
    let b3: u64 = block[3] as u64;
    let b4: u64 = block[4] as u64;
    let b5: u64 = block[5] as u64;
    let b6: u64 = block[6] as u64;
    let b7: u64 = block[7] as u64;
    b0 + b1 * 0x100 + b2 * 0x1_0000 + b3 * 0x100_0000 + b4 * 0x1_0000_0000 + b5 * 0x100_0000_0000
        + b6 * 0x1_0000_0000_0000 + b7 * 0x100_0000_0000_0000
}

} // verus!
