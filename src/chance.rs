//! Random draws, taken from `rand`'s thread-local generator.

use rand::Rng;
use vstd::prelude::*;

verus! {

/// Relies on rand 0.8's `thread_rng().gen_range(lo..hi)`: a value drawn
/// from `[lo, hi)`. It panics on an empty range, which `requires` excludes.
#[verifier::external_body]
pub(crate) fn random_range(lo: i128, hi: i128) -> (r: i128)
    requires
        lo < hi,
    ensures
        lo <= r < hi,
{
    rand::thread_rng().gen_range(lo..hi)
}

/// Relies on rand 0.8's `thread_rng().gen_ratio(num, den)`: `true` with
/// probability `num / den`, never when `num` is 0 and always when `num`
/// equals `den`. It panics when `den` is 0 or `num` exceeds `den`, which
/// `requires` excludes.
#[verifier::external_body]
pub(crate) fn random_ratio(num: u32, den: u32) -> (r: bool)
    requires
        0 < den,
        num <= den,
    ensures
        num == 0 ==> !r,
        num == den ==> r,
{
    rand::thread_rng().gen_ratio(num, den)
}

} // verus!
