//! Events the game rules raise for the host to act on.

use vstd::prelude::*;

verus! {

/// Raised when an enemy reaches the player; carries the score the run
/// ended with.
#[derive(Clone, Copy, Debug, PartialEq, Eq, Structural)]
pub struct GameOver {
    pub score: u32,
}

} // verus!
