//! The checksum of a superblock: its bytes summed as 32-bit little-endian
//! words, and the sum folded to 32 bits.

use crate::le::{le_u16, le_u32, read_u16_le, read_u32_le};
use vstd::prelude::*;

verus! {

/// Length in bytes under which the sum of the words fits the 64-bit
/// accumulator.
pub const CHECKSUM_LEN_LIMIT: u64 = 0x4_0000_0000;

/// The sum of the 32-bit little-endian words of `b`. Two bytes left at the
/// end count as a 16-bit word; one or three bytes left count as nothing.
pub open spec fn word_sum(b: Seq<u8>) -> nat
    decreases b.len(),
{
    if b.len() >= 4 {
        le_u32(b.subrange(0, 4)) as nat + word_sum(b.subrange(4, b.len() as int))
    } else if b.len() == 2 {
        le_u16(b) as nat
    } else {
        0
    }
}

/// A sum folded to 32 bits: its bits above the low 32 are added to its low
/// 32 bits, and of the result the low 32 bits are kept.
pub open spec fn fold_sum(sum: nat) -> u32 {
    ((sum % 0x1_0000_0000 + sum / 0x1_0000_0000) % 0x1_0000_0000) as u32
}

/// The checksum of a run of bytes.
pub open spec fn checksum(b: Seq<u8>) -> u32 {
    fold_sum(word_sum(b))
}

/// Computes the checksum of a run of bytes.
pub fn checksum_of(b: &[u8]) -> (r: u32)
    requires
        b.len() < CHECKSUM_LEN_LIMIT,
    ensures
        r == checksum(b@),
{
    let n = b.len();
    let mut sum: u64 = 0;
    let mut i: usize = 0;
    assert(b@.subrange(0, n as int) =~= b@);
    while n - i >= 4
        invariant
            i <= n == b.len(),
            n < CHECKSUM_LEN_LIMIT,
            sum <= i * 0x4000_0000,
            sum + word_sum(b@.subrange(i as int, n as int)) == word_sum(b@),
        decreases n - i,
    {
        let word = read_u32_le(b, i);
        proof {
            let rest = b@.subrange(i as int, n as int);
            assert(rest.subrange(0, 4) =~= b@.subrange(i as int, i + 4));
            assert(rest.subrange(4, rest.len() as int) =~= b@.subrange(i + 4, n as int));
        }
        sum = sum + word as u64;
        i = i + 4;
    }
    if n - i == 2 {
        let word = read_u16_le(b, i);
        assert(b@.subrange(i as int, n as int) =~= b@.subrange(i as int, i + 2));
        sum = sum + word as u64;
    } else {
        assert(b@.subrange(i as int, n as int).len() == n - i);
    }
    let low: u64 = sum % 0x1_0000_0000;
    let high: u64 = sum / 0x1_0000_0000;
    ((low + high) % 0x1_0000_0000) as u32
}

} // verus!
