//! The score of a session: the number of rings passed since it began.

use vstd::prelude::*;

verus! {

/// Rings passed in the current session. It starts at zero and only grows.
#[derive(Clone, Copy, Debug, PartialEq, Eq, Structural)]
pub struct Score(pub u32);

impl Default for Score {
    fn default() -> (score: Self)
        ensures
            score.0 == 0,
    {
        Score(0)
    }
}

} // verus!
