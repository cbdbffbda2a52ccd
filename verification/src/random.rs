//! The one source of chance in the game.

use vstd::prelude::*;

verus! {

/// Draws a number with `rand::random::<u32>()`, which takes it from the
/// thread-local generator, uniformly over all of `u32`.
///
/// Nothing is claimed of the number drawn: what the game does with it is
/// proved for every value it can take.
#[verifier::external_body]
pub(crate) fn random_sample() -> (sample: u32) {
    rand::random::<u32>()
}

} // verus!
