//! Byte buffers of a fixed length.

use vstd::prelude::*;

verus! {

/// A buffer of `N` zero bytes.
pub fn zeroed<const N: usize>() -> (buffer: [u8; N])
    ensures
        forall|i: int| 0 <= i < N ==> buffer[i] == 0,
{
    let mut buffer = [0u8; N];
    let mut i: usize = 0;
    while i < N
        invariant
            i <= N,
            forall|j: int| 0 <= j < i ==> buffer[j] == 0,
        decreases N - i,
    {
        buffer[i] = 0;
        i = i + 1;
    }
    buffer
}

} // verus!
