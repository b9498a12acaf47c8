//! The random source: the thread-local generator of the `rand` crate, behind
//! contracts that are taken on trust.

use vstd::prelude::*;
use rand::rngs::ThreadRng;
use rand::Rng;

verus! {

/// `rand::rngs::ThreadRng`, the handle to the generator of the current
/// thread. Nothing is known of what it holds.
#[verifier::external_type_specification]
#[verifier::external_body]
pub struct ExThreadRng(ThreadRng);

/// `rand::thread_rng` hands out the generator of the current thread, which
/// the system seeds on first use. Nothing is claimed of the handle. (The call
/// panics where the system's entropy source cannot be read.)
pub assume_specification[ rand::thread_rng ]() -> (rng: ThreadRng)
;

/// `Rng::gen_range` on the half-open range `low..high` of `u32`: the number
/// drawn lies in the range. Which number it is depends on chance, so no more
/// is claimed. The call panics on an empty range, which `requires` excludes.
#[verifier::external_body]
pub(crate) fn draw_between(rng: &mut ThreadRng, low: u32, high: u32) -> (draw: u32)
    requires
        low < high,
    ensures
        low <= draw < high,
{
    rng.gen_range(low..high)
}

/// `Rng::gen_ratio`: a boolean that is true with a chance of `numerator` in
/// `denominator`. The outcome is certain at the two ends only: always true
/// where the two are equal, always false where `numerator` is 0. The call
/// panics where `denominator` is 0 or less than `numerator`, which `requires`
/// excludes.
#[verifier::external_body]
pub(crate) fn draw_ratio(rng: &mut ThreadRng, numerator: u32, denominator: u32) -> (hit: bool)
    requires
        0 < denominator,
        numerator <= denominator,
    ensures
        numerator == denominator ==> hit,
        numerator == 0 ==> !hit,
{
    rng.gen_ratio(numerator, denominator)
}

} // verus!
