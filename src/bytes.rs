//! Byte-buffer helpers shared by every layer: bounded copies and erasure.
use vstd::prelude::*;
use zeroize::Zeroize;

verus! {

/// `n` zero bytes.
pub open spec fn zeros(n: nat) -> Seq<u8> {
    Seq::new(n, |i: int| 0u8)
}

/// Relies on zeroize's `Zeroize` for `[u8]`: every byte of the buffer is
/// overwritten with zero by volatile writes. Its one check, that the length
/// fits in an `isize`, holds for every slice.
#[verifier::external_body]
pub fn wipe(buf: &mut [u8])
    ensures
        final(buf)@ == zeros(old(buf)@.len()),
    opens_invariants none
    no_unwind
{
    buf.zeroize();
}

/// Relies on zeroize's `Zeroize` for `[u8]`, applied to the vector's
/// elements: every element is overwritten with zero; the length is kept.
#[verifier::external_body]
pub fn wipe_vec(buf: &mut Vec<u8>)
    ensures
        final(buf)@ == zeros(old(buf)@.len()),
    opens_invariants none
    no_unwind
{
    buf.as_mut_slice().zeroize();
}

/// Writes `src` into `dst` starting at `offset`, leaving the other bytes as they were.
pub fn copy_into(dst: &mut [u8], offset: usize, src: &[u8])
    requires
        offset + src@.len() <= old(dst)@.len(),
    ensures
        final(dst)@ == old(dst)@.subrange(0, offset as int) + src@ + old(dst)@.subrange(
            offset + src@.len(),
            old(dst)@.len() as int,
        ),
{
    let n = src.len();
    let dlen = dst.len();
    let mut i: usize = 0;
    while i < n
        invariant
            n == src@.len(),
            dlen == dst@.len(),
            i <= n,
            offset + n <= dst@.len(),
            dst@.len() == old(dst)@.len(),
            forall|k: int| 0 <= k < offset ==> dst@[k] == old(dst)@[k],
            forall|k: int| offset + n <= k < dst@.len() ==> dst@[k] == old(dst)@[k],
            forall|k: int| 0 <= k < i ==> dst@[offset + k] == src@[k],
        decreases n - i,
    {
        dst[offset + i] = src[i];
        i = i + 1;
    }
    assert(dst@ =~= old(dst)@.subrange(0, offset as int) + src@ + old(dst)@.subrange(
        offset + src@.len(),
        old(dst)@.len() as int,
    ));
}

/// Fills `dst` with the bytes of `src` that start at `start`.
pub fn copy_out(src: &[u8], start: usize, dst: &mut [u8])
    requires
        start + old(dst)@.len() <= src@.len(),
    ensures
        final(dst)@ == src@.subrange(start as int, start + old(dst)@.len()),
{
    let n = dst.len();
    let slen = src.len();
    let mut i: usize = 0;
    while i < n
        invariant
            slen == src@.len(),
            n == dst@.len(),
            n == old(dst)@.len(),
            i <= n,
            start + n <= src@.len(),
            forall|k: int| 0 <= k < i ==> dst@[k] == src@[start + k],
        decreases n - i,
    {
        dst[i] = src[start + i];
        i = i + 1;
    }
    assert(dst@ =~= src@.subrange(start as int, start + n));
}

} // verus!
