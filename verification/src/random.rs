//! The one source of chance that the pet uses.

use rand::Rng;
use vstd::prelude::*;

verus! {

/// Draws a whole number from zero up to, but not including, `bound`.
///
/// Trusted: the body calls `rand::Rng::gen_range` with the range `0..bound`
/// on the generator that `rand::thread_rng` hands out, which the system seeds
/// on its first use in a thread. The method refuses an empty range with a
/// panic, which the precondition rules out, and returns a member of the
/// range it was given. Which member is left open: two draws with one bound
/// may differ.
#[verifier::external_body]
pub(crate) fn random_below(bound: i32) -> (drawn: i32)
    requires
        bound > 0,
    ensures
        0 <= drawn < bound,
{
    rand::thread_rng().gen_range(0..bound)
}

} // verus!
