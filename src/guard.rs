//! The one-shot gate that lets hardware be initialised once per process.
use vstd::prelude::*;

verus! {

/// Tracks whether hardware initialisation has been claimed.
///
/// It starts unclaimed, can be claimed once, and offers no way back: a
/// process holds one of these for its whole life (behind a lock, so that
/// racing claims are decided one at a time).
pub struct InitGuard {
    claimed: bool,
}

impl InitGuard {
    /// Whether the one allowed claim has been taken.
    pub closed spec fn is_claimed(&self) -> bool {
        self.claimed
    }

    /// A guard in its initial, unclaimed state.
    pub fn new() -> (g: InitGuard)
        ensures
            !g.is_claimed(),
    {
        InitGuard { claimed: false }
    }

    /// Whether the one allowed claim has been taken.
    pub fn claimed(&self) -> (r: bool)
        ensures
            r == self.is_claimed(),
    {
        self.claimed
    }

    /// Takes the claim if it is still free. Returns `true` only for the call
    /// that performed the transition; every later call returns `false`.
    pub fn try_claim(&mut self) -> (won: bool)
        ensures
            won == !old(self).is_claimed(),
            final(self).is_claimed(),
    {
        let won = !self.claimed;
        self.claimed = true;
        won
    }
}

} // verus!
