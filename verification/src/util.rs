//! Small verified helpers on byte vectors and index ranges.

use vstd::prelude::*;

verus! {

/// Append every byte of `src` to `dst`.
pub fn push_all(dst: &mut Vec<u8>, src: &Vec<u8>)
    ensures
        final(dst)@ == old(dst)@ + src@,
{
    let mut i: usize = 0;
    while i < src.len()
        invariant
            i <= src@.len(),
            dst@ == old(dst)@ + src@.subrange(0, i as int),
        decreases src@.len() - i,
    {
        dst.push(src[i]);
        i += 1;
        proof {
            assert(dst@ =~= old(dst)@ + src@.subrange(0, i as int));
        }
    }
    proof {
        assert(dst@ =~= old(dst)@ + src@);
    }
}

/// Copy the bytes of `src` between `start` (inclusive) and `end` (exclusive).
pub fn copy_range(src: &Vec<u8>, start: usize, end: usize) -> (r: Vec<u8>)
    requires
        start <= end <= src@.len(),
    ensures
        r@ == src@.subrange(start as int, end as int),
{
    let mut r: Vec<u8> = Vec::new();
    let mut i: usize = start;
    while i < end
        invariant
            start <= i <= end <= src@.len(),
            r@ == src@.subrange(start as int, i as int),
        decreases end - i,
    {
        r.push(src[i]);
        i += 1;
        proof {
            assert(r@ =~= src@.subrange(start as int, i as int));
        }
    }
    r
}

/// Compare two byte vectors for equality of their contents.
pub fn bytes_eq(a: &Vec<u8>, b: &Vec<u8>) -> (r: bool)
    ensures
        r <==> a@ == b@,
{
    if a.len() != b.len() {
        proof {
            assert(a@ != b@);
        }
        return false;
    }
    let mut i: usize = 0;
    while i < a.len()
        invariant
            i <= a@.len(),
            a@.len() == b@.len(),
            forall|j: int| 0 <= j < i ==> a@[j] == b@[j],
        decreases a@.len() - i,
    {
        if a[i] != b[i] {
            return false;
        }
        i += 1;
    }
    proof {
        assert(a@ =~= b@);
    }
    true
}

/// The big-endian bytes of a 64-bit integer.
pub open spec fn spec_be64(x: u64) -> Seq<u8> {
    seq![
        (x >> 56) as u8,
        (x >> 48) as u8,
        (x >> 40) as u8,
        (x >> 32) as u8,
        (x >> 24) as u8,
        (x >> 16) as u8,
        (x >> 8) as u8,
        x as u8,
    ]
}

/// Serialize a 64-bit integer as eight big-endian bytes.
pub fn be64_bytes(x: u64) -> (r: Vec<u8>)
    ensures
        r@ == spec_be64(x),
        r@.len() == 8,
{
    let mut r: Vec<u8> = Vec::new();
    r.push(#[verifier::truncate] ((x >> 56) as u8));
    r.push(#[verifier::truncate] ((x >> 48) as u8));
    r.push(#[verifier::truncate] ((x >> 40) as u8));
    r.push(#[verifier::truncate] ((x >> 32) as u8));
    r.push(#[verifier::truncate] ((x >> 24) as u8));
    r.push(#[verifier::truncate] ((x >> 16) as u8));
    r.push(#[verifier::truncate] ((x >> 8) as u8));
    r.push(#[verifier::truncate] (x as u8));
    proof {
        assert(r@ =~= spec_be64(x));
    }
    r
}

/// Distinct integers have distinct big-endian serializations: the per-index
/// inputs to the shared-secret hash never collide across indices.
pub proof fn lemma_be64_injective(x: u64, y: u64)
    requires
        x != y,
    ensures
        spec_be64(x) != spec_be64(y),
{
    assert(!((x >> 56) as u8 == (y >> 56) as u8 && (x >> 48) as u8 == (y >> 48) as u8
        && (x >> 40) as u8 == (y >> 40) as u8 && (x >> 32) as u8 == (y >> 32) as u8
        && (x >> 24) as u8 == (y >> 24) as u8 && (x >> 16) as u8 == (y >> 16) as u8
        && (x >> 8) as u8 == (y >> 8) as u8 && x as u8 == y as u8)) by (bit_vector)
        requires
            x != y,
    ;
    assert(spec_be64(x)[0] == (x >> 56) as u8 && spec_be64(y)[0] == (y >> 56) as u8);
    if spec_be64(x) == spec_be64(y) {
        assert(spec_be64(x)[0] == spec_be64(y)[0]);
        assert(spec_be64(x)[1] == spec_be64(y)[1]);
        assert(spec_be64(x)[2] == spec_be64(y)[2]);
        assert(spec_be64(x)[3] == spec_be64(y)[3]);
        assert(spec_be64(x)[4] == spec_be64(y)[4]);
        assert(spec_be64(x)[5] == spec_be64(y)[5]);
        assert(spec_be64(x)[6] == spec_be64(y)[6]);
        assert(spec_be64(x)[7] == spec_be64(y)[7]);
    }
}

/// Overwrite every byte of a secret buffer with zero.
pub fn wipe_bytes(buf: &mut Vec<u8>)
    ensures
        final(buf)@.len() == old(buf)@.len(),
        forall|i: int| 0 <= i < final(buf)@.len() ==> final(buf)@[i] == 0,
{
    let n = buf.len();
    let mut i: usize = 0;
    while i < n
        invariant
            n == buf@.len(),
            i <= n,
            forall|j: int| 0 <= j < i ==> buf@[j] == 0,
        decreases n - i,
    {
        buf[i] = 0;
        i += 1;
    }
}

/// An inclusive index range with the usability default: a missing end, or one
/// below the start, collapses to the single start index.
pub fn index_range(first: u64, last: Option<u64>) -> (r: (u64, u64))
    ensures
        r.0 == first,
        r.0 <= r.1,
        match last {
            Option::Some(l) => r.1 == if l >= first { l } else { first },
            Option::None => r.1 == first,
        },
{
    match last {
        Option::Some(l) => {
            if l >= first {
                (first, l)
            } else {
                (first, first)
            }
        },
        Option::None => (first, first),
    }
}

} // verus!
