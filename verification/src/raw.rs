//! Runs of raw bytes: copied out of a buffer into an array, appended to a
//! vector, or frozen into an array once a record is complete.

use vstd::prelude::*;

verus! {

/// A prefix of a byte sequence followed by the run behind it is the longer
/// prefix.
pub proof fn lemma_join(b: Seq<u8>, i: int, j: int)
    requires
        0 <= i <= j <= b.len(),
    ensures
        b.subrange(0, i) + b.subrange(i, j) == b.subrange(0, j),
{
    assert(b.subrange(0, i) + b.subrange(i, j) =~= b.subrange(0, j));
}

/// In five runs of bytes laid end to end, each run is found again at the
/// offset that the lengths of the runs before it give.
pub proof fn lemma_five_parts(a: Seq<u8>, b: Seq<u8>, c: Seq<u8>, d: Seq<u8>, e: Seq<u8>)
    ensures
        ({
            let all = a + b + c + d + e;
            let ab = a.len() + b.len();
            let abc = ab + c.len();
            let abcd = abc + d.len();
            &&& all.len() == abcd + e.len()
            &&& all.subrange(0, a.len() as int) == a
            &&& all.subrange(a.len() as int, ab as int) == b
            &&& all.subrange(ab as int, abc as int) == c
            &&& all.subrange(abc as int, abcd as int) == d
            &&& all.subrange(abcd as int, all.len() as int) == e
        }),
{
    let all = a + b + c + d + e;
    let ab = a.len() + b.len();
    let abc = ab + c.len();
    let abcd = abc + d.len();
    assert(all.subrange(0, a.len() as int) =~= a);
    assert(all.subrange(a.len() as int, ab as int) =~= b);
    assert(all.subrange(ab as int, abc as int) =~= c);
    assert(all.subrange(abc as int, abcd as int) =~= d);
    assert(all.subrange(abcd as int, all.len() as int) =~= e);
}

/// Joining byte sequences is associative.
pub proof fn lemma_concat_assoc(a: Seq<u8>, b: Seq<u8>, c: Seq<u8>)
    ensures
        (a + b) + c == a + (b + c),
{
    assert((a + b) + c =~= a + (b + c));
}

/// Copies the `N` bytes that start at `at` into an array.
pub fn take_array<const N: usize>(b: &[u8], at: usize) -> (r: [u8; N])
    requires
        at + N <= b.len(),
    ensures
        r@ == b@.subrange(at as int, at + N),
{
    let mut out = [0u8; N];
    let mut i: usize = 0;
    while i < N
        invariant
            i <= N,
            at + N <= b.len(),
            forall|j: int| 0 <= j < i ==> out@[j] == b@[at + j],
        decreases N - i,
    {
        out[i] = b[at + i];
        i = i + 1;
    }
    assert(out@ =~= b@.subrange(at as int, at + N));
    out
}

/// Appends all of `b`.
pub fn push_all(out: &mut Vec<u8>, b: &[u8])
    ensures
        final(out)@ == old(out)@ + b@,
{
    let mut i: usize = 0;
    while i < b.len()
        invariant
            i <= b.len(),
            out@ == old(out)@ + b@.subrange(0, i as int),
        decreases b.len() - i,
    {
        out.push(b[i]);
        i = i + 1;
        assert(out@ =~= old(out)@ + b@.subrange(0, i as int));
    }
    assert(b@.subrange(0, i as int) =~= b@);
}

/// The `N` bytes of a vector as an array.
pub fn to_array<const N: usize>(v: &Vec<u8>) -> (r: [u8; N])
    requires
        v.len() == N,
    ensures
        r@ == v@,
{
    let mut out = [0u8; N];
    let mut i: usize = 0;
    while i < N
        invariant
            i <= N,
            v.len() == N,
            forall|j: int| 0 <= j < i ==> out@[j] == v@[j],
        decreases N - i,
    {
        out[i] = v[i];
        i = i + 1;
    }
    assert(out@ =~= v@);
    out
}

} // verus!
