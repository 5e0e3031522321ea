//! The random draws behind spawn decisions.
//!
//! The draws come from the `rand` crate's thread-local generator. Nothing is
//! proved of the generator: the contracts below are taken from its
//! documentation and source, and only state what holds of every draw.

use rand::rngs::ThreadRng;
use rand::Rng;
use vstd::prelude::*;

verus! {

/// `rand::rngs::ThreadRng`, the handle of a thread's generator. Nothing of
/// its inside is known here.
#[verifier::external_type_specification]
#[verifier::external_body]
pub struct ExThreadRng(rand::rngs::ThreadRng);

/// `rand::thread_rng` hands out the calling thread's generator, seeded by the
/// system. Nothing is claimed of it.
pub assume_specification[ rand::thread_rng ]() -> (rng: ThreadRng);

/// `Rng::gen_ratio`: a bool that is true with probability
/// `numerator / denominator`. The call panics on a zero denominator and on a
/// ratio above one, which the precondition leaves out. Of the outcome it is
/// only claimed, as documented, that a ratio of one always gives `true` and a
/// ratio of zero always gives `false`.
#[verifier::external_body]
pub(crate) fn gen_ratio(rng: &mut ThreadRng, numerator: u32, denominator: u32) -> (hit: bool)
    requires
        0 < denominator,
        numerator <= denominator,
    ensures
        numerator == denominator ==> hit,
        numerator == 0 ==> !hit,
{
    rng.gen_ratio(numerator, denominator)
}

/// `Rng::gen_range` on the half-open range `low..high` of `i64`. The call
/// panics on an empty range, which the precondition leaves out. The value
/// drawn lies in the range.
#[verifier::external_body]
pub(crate) fn gen_range(rng: &mut ThreadRng, low: i64, high: i64) -> (value: i64)
    requires
        low < high,
    ensures
        low <= value < high,
{
    rng.gen_range(low..high)
}

} // verus!
