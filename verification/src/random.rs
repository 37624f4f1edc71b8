//! The one source of chance: where food appears.

use rand::Rng;
use vstd::prelude::*;

verus! {

/// Draws a number below `bound` from the thread's random generator.
///
/// This calls `rand::Rng::gen_range` on `rand::thread_rng()` with the range
/// `0..bound`. The contract is taken on trust from that function's
/// documentation: it samples the half-open range, so the result lies below
/// `bound`, and it panics on an empty range, which `requires` leaves out.
/// Nothing is claimed about which number comes back.
#[verifier::external_body]
pub(crate) fn random_below(bound: u32) -> (r: u32)
    requires
        bound > 0,
    ensures
        r < bound,
{
    rand::thread_rng().gen_range(0..bound)
}

} // verus!
