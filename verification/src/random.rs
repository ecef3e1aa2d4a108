//! The random source that a deck is shuffled with.
//!
//! Nothing in this file is proved: it states what the library takes on
//! trust from the `rand` crate.

use rand::rngs::ThreadRng;
use rand::seq::SliceRandom;
use vstd::prelude::*;

verus! {

/// `rand::rngs::ThreadRng`, the handle to a thread's own generator. The
/// library only carries it from `thread_rng` to `shuffle`.
#[verifier::external_type_specification]
#[verifier::external_body]
pub struct ExThreadRng(ThreadRng);

/// `rand::thread_rng`: the handle to the calling thread's generator, which
/// the system seeds. Nothing is claimed of the handle. The first call on a
/// thread stops the program if the system can give no seed.
pub assume_specification[ rand::thread_rng ]() -> (rng: ThreadRng)
;

/// `rand::seq::SliceRandom::shuffle` on the items of a vector: it exchanges
/// items pairwise, at places that `rng` picks, so what comes back holds the
/// same items as before, each as often as before. Which order comes back is
/// left open, and so is how likely each order is. A draw stops the program
/// if the generator has to seed itself anew, after much output or after a
/// fork, and the system can give no seed.
#[verifier::external_body]
pub(crate) fn shuffle<T>(items: &mut Vec<T>, rng: &mut ThreadRng)
    ensures
        final(items)@.to_multiset() == old(items)@.to_multiset(),
{
    items.shuffle(rng);
}

} // verus!
