//! Byte copying.
//!
//! Loading the vector table drags in a raw byte-copy routine; its logic —
//! the first `n` bytes of the source replace the first `n` bytes of the
//! destination, and nothing else moves — is verified here over safe
//! buffers. The raw-pointer entry point the linker wants is a thin
//! unverified shell around the same contract.

use vstd::prelude::*;

verus! {

/// Copy `src[0..n]` over `dest[0..n]`; every byte of `dest` from `n` on
/// keeps its value.
pub fn copy_bytes(dest: &mut Vec<u8>, src: &Vec<u8>, n: usize)
    requires
        n <= src@.len(),
        n <= old(dest)@.len(),
    ensures
        final(dest)@.len() == old(dest)@.len(),
        forall|i: int| 0 <= i < n ==> final(dest)@[i] == src@[i],
        forall|i: int| n <= i < old(dest)@.len() ==> final(dest)@[i] == old(dest)@[i],
{
    let mut i: usize = 0;
    while i < n
        invariant
            i <= n,
            n <= src@.len(),
            n <= dest@.len(),
            dest@.len() == old(dest)@.len(),
            forall|j: int| 0 <= j < i ==> dest@[j] == src@[j],
            forall|j: int| i <= j < dest@.len() ==> dest@[j] == old(dest)@[j],
        decreases n - i,
    {
        dest.set(i, src[i]);
        i = i + 1;
    }
}

} // verus!
