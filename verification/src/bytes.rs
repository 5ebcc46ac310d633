//! Moving bytes between buffers.
use vstd::prelude::*;

verus! {

/// `dst` with the `n` bytes from place `at` on replaced by those of `src`
/// from place `from` on.
pub open spec fn spliced(dst: Seq<u8>, at: int, src: Seq<u8>, from: int, n: int) -> Seq<u8> {
    dst.subrange(0, at) + src.subrange(from, from + n) + dst.subrange(at + n, dst.len() as int)
}

/// Copies `n` bytes of `src`, from place `from` on, to `dst` at place `at`.
pub fn copy_into(dst: &mut [u8], at: usize, src: &[u8], from: usize, n: usize)
    requires
        at + n <= old(dst)@.len(),
        from + n <= src@.len(),
    ensures
        final(dst)@ == spliced(old(dst)@, at as int, src@, from as int, n as int),
        final(dst)@.len() == old(dst)@.len(),
{
    let dst_len = dst.len();
    let src_len = src.len();
    let mut i: usize = 0;
    while i < n
        invariant
            i <= n,
            at + n <= dst_len,
            from + n <= src_len,
            src@.len() == src_len,
            dst@.len() == dst_len,
            dst@.len() == old(dst)@.len(),
            dst@ == spliced(old(dst)@, at as int, src@, from as int, i as int),
        decreases n - i,
    {
        dst[at + i] = src[from + i];
        i += 1;
        assert(dst@ =~= spliced(old(dst)@, at as int, src@, from as int, i as int));
    }
    assert(dst@ =~= spliced(old(dst)@, at as int, src@, from as int, n as int));
}

} // verus!
