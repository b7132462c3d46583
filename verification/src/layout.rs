//! Byte-size arithmetic shared by buffer creation and command recording.
//!
//! The device API only copies and maps byte ranges whose length is a
//! multiple of its copy alignment (4 bytes), so every buffer is allocated
//! with its logical size rounded up to that alignment.

use vstd::prelude::*;

verus! {

/// `n` rounded up to the next multiple of the copy alignment.
pub open spec fn spec_align_up(n: u64) -> int {
    if n % 4 == 0 {
        n as int
    } else {
        n + 4 - n % 4
    }
}

/// Rounds a byte count up to the device's copy alignment.
pub fn align_up(n: u64) -> (r: u64)
    requires
        n <= u64::MAX - 3,
    ensures
        r == spec_align_up(n),
        r % 4 == 0,
        r >= n,
        r - n < 4,
{
    let rem = n % 4;
    if rem == 0 {
        n
    } else {
        n + (4 - rem)
    }
}

/// Zero-extends a byte vector to the copy alignment: the original bytes
/// followed by up to three zeroes.
pub fn pad_to_align(bytes: Vec<u8>) -> (r: Vec<u8>)
    requires
        bytes@.len() + 3 < usize::MAX,
    ensures
        r@.len() == spec_align_up(bytes@.len() as u64),
        r@ == bytes@ + Seq::new((spec_align_up(bytes@.len() as u64) - bytes@.len()) as nat, |i: int| 0u8),
{
    let mut out = bytes;
    let target = align_up(out.len() as u64) as usize;
    let ghost original = out@;
    while out.len() < target
        invariant
            original.len() <= out@.len() <= target,
            target == spec_align_up(original.len() as u64),
            out@ == original + Seq::new((out@.len() - original.len()) as nat, |i: int| 0u8),
        decreases target - out@.len(),
    {
        out.push(0u8);
        proof {
            assert(out@ =~= original + Seq::new((out@.len() - original.len()) as nat, |i: int| 0u8));
        }
    }
    out
}

} // verus!
