//! Little-endian integers in byte sequences.
//!
//! Every multi-byte field of the on-disk format is little-endian. The spec
//! functions here give the arithmetic meaning of such a field; the executable
//! functions read one out of a slice or append one to a vector.

use vstd::prelude::*;

verus! {

/// The integer that two bytes spell, least significant byte first.
pub open spec fn le_u16(b: Seq<u8>) -> u16
    recommends
        b.len() == 2,
{
    (b[0] + b[1] * 0x100) as u16
}

/// The integer that four bytes spell, least significant byte first.
pub open spec fn le_u32(b: Seq<u8>) -> u32
    recommends
        b.len() == 4,
{
    (le_u16(b.subrange(0, 2)) + le_u16(b.subrange(2, 4)) * 0x1_0000) as u32
}

/// The integer that eight bytes spell, least significant byte first.
pub open spec fn le_u64(b: Seq<u8>) -> u64
    recommends
        b.len() == 8,
{
    (le_u32(b.subrange(0, 4)) + le_u32(b.subrange(4, 8)) * 0x1_0000_0000) as u64
}

/// The two bytes of `x`, least significant first.
pub open spec fn u16_le(x: u16) -> Seq<u8> {
    seq![(x % 0x100) as u8, (x / 0x100) as u8]
}

/// The four bytes of `x`, least significant first.
pub open spec fn u32_le(x: u32) -> Seq<u8> {
    u16_le((x % 0x1_0000) as u16) + u16_le((x / 0x1_0000) as u16)
}

/// The eight bytes of `x`, least significant first.
pub open spec fn u64_le(x: u64) -> Seq<u8> {
    u32_le((x % 0x1_0000_0000) as u32) + u32_le((x / 0x1_0000_0000) as u32)
}

/// Reading back the bytes of a 16-bit integer gives the integer.
pub proof fn lemma_le_u16_of_bytes(x: u16)
    ensures
        u16_le(x).len() == 2,
        le_u16(u16_le(x)) == x,
{
}

/// Writing out the integer read from two bytes gives the two bytes.
pub proof fn lemma_bytes_of_le_u16(b: Seq<u8>)
    requires
        b.len() == 2,
    ensures
        u16_le(le_u16(b)) == b,
{
    assert(u16_le(le_u16(b)) =~= b);
}

/// Reading back the bytes of a 32-bit integer gives the integer.
pub proof fn lemma_le_u32_of_bytes(x: u32)
    ensures
        u32_le(x).len() == 4,
        le_u32(u32_le(x)) == x,
{
    let lo = (x % 0x1_0000) as u16;
    let hi = (x / 0x1_0000) as u16;
    lemma_le_u16_of_bytes(lo);
    lemma_le_u16_of_bytes(hi);
    assert(u32_le(x).subrange(0, 2) =~= u16_le(lo));
    assert(u32_le(x).subrange(2, 4) =~= u16_le(hi));
}

/// Writing out the integer read from four bytes gives the four bytes.
pub proof fn lemma_bytes_of_le_u32(b: Seq<u8>)
    requires
        b.len() == 4,
    ensures
        u32_le(le_u32(b)) == b,
{
    let lo = b.subrange(0, 2);
    let hi = b.subrange(2, 4);
    lemma_bytes_of_le_u16(lo);
    lemma_bytes_of_le_u16(hi);
    assert(le_u32(b) % 0x1_0000 == le_u16(lo));
    assert(le_u32(b) / 0x1_0000 == le_u16(hi));
    assert(lo + hi =~= b);
}

/// Reading back the bytes of a 64-bit integer gives the integer.
pub proof fn lemma_le_u64_of_bytes(x: u64)
    ensures
        u64_le(x).len() == 8,
        le_u64(u64_le(x)) == x,
{
    let lo = (x % 0x1_0000_0000) as u32;
    let hi = (x / 0x1_0000_0000) as u32;
    lemma_le_u32_of_bytes(lo);
    lemma_le_u32_of_bytes(hi);
    assert(u64_le(x).subrange(0, 4) =~= u32_le(lo));
    assert(u64_le(x).subrange(4, 8) =~= u32_le(hi));
}

/// Writing out the integer read from eight bytes gives the eight bytes.
pub proof fn lemma_bytes_of_le_u64(b: Seq<u8>)
    requires
        b.len() == 8,
    ensures
        u64_le(le_u64(b)) == b,
{
    let lo = b.subrange(0, 4);
    let hi = b.subrange(4, 8);
    lemma_bytes_of_le_u32(lo);
    lemma_bytes_of_le_u32(hi);
    assert(le_u64(b) % 0x1_0000_0000 == le_u32(lo));
    assert(le_u64(b) / 0x1_0000_0000 == le_u32(hi));
    assert(lo + hi =~= b);
}

/// Reads the 16-bit little-endian integer that starts at `at`.
pub fn read_u16_le(b: &[u8], at: usize) -> (r: u16)
    requires
        at + 2 <= b.len(),
    ensures
        r == le_u16(b@.subrange(at as int, at + 2)),
{
    let lo: u16 = b[at] as u16;
    let hi: u16 = b[at + 1] as u16;
    lo + hi * 0x100
}

/// Reads the 32-bit little-endian integer that starts at `at`.
pub fn read_u32_le(b: &[u8], at: usize) -> (r: u32)
    requires
        at + 4 <= b.len(),
    ensures
        r == le_u32(b@.subrange(at as int, at + 4)),
{
    let lo: u32 = read_u16_le(b, at) as u32;
    let hi: u32 = read_u16_le(b, at + 2) as u32;
    proof {
        let w = b@.subrange(at as int, at + 4);
        assert(w.subrange(0, 2) =~= b@.subrange(at as int, at + 2));
        assert(w.subrange(2, 4) =~= b@.subrange(at + 2, at + 4));
    }
    lo + hi * 0x1_0000
}

/// Reads the 64-bit little-endian integer that starts at `at`.
pub fn read_u64_le(b: &[u8], at: usize) -> (r: u64)
    requires
        at + 8 <= b.len(),
    ensures
        r == le_u64(b@.subrange(at as int, at + 8)),
{
    let lo: u64 = read_u32_le(b, at) as u64;
    let hi: u64 = read_u32_le(b, at + 4) as u64;
    proof {
        let w = b@.subrange(at as int, at + 8);
        assert(w.subrange(0, 4) =~= b@.subrange(at as int, at + 4));
        assert(w.subrange(4, 8) =~= b@.subrange(at + 4, at + 8));
    }
    lo + hi * 0x1_0000_0000
}

/// Appends the two bytes of `x`, least significant first.
pub fn push_u16_le(out: &mut Vec<u8>, x: u16)
    ensures
        final(out)@ == old(out)@ + u16_le(x),
{
    out.push((x % 0x100) as u8);
    out.push((x / 0x100) as u8);
    assert(out@ =~= old(out)@ + u16_le(x));
}

/// Appends the four bytes of `x`, least significant first.
pub fn push_u32_le(out: &mut Vec<u8>, x: u32)
    ensures
        final(out)@ == old(out)@ + u32_le(x),
{
    push_u16_le(out, (x % 0x1_0000) as u16);
    push_u16_le(out, (x / 0x1_0000) as u16);
    assert(out@ =~= old(out)@ + u32_le(x));
}

/// Appends the eight bytes of `x`, least significant first.
pub fn push_u64_le(out: &mut Vec<u8>, x: u64)
    ensures
        final(out)@ == old(out)@ + u64_le(x),
{
    push_u32_le(out, (x % 0x1_0000_0000) as u32);
    push_u32_le(out, (x / 0x1_0000_0000) as u32);
    assert(out@ =~= old(out)@ + u64_le(x));
}

} // verus!
