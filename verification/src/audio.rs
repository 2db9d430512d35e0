//! The audio-alert flag: a single boolean toggled by one menu action
//! and read before any alert sound is emitted.

use vstd::prelude::*;

verus! {

/// The audio-alert flag. The embedding application holds exactly one
/// of these (inside the coordinator state) and routes every read and
/// toggle through it, so the flag has no relationship to any other
/// state.
pub struct AudioFlag {
    pub enabled: bool,
}

impl AudioFlag {
    /// A fresh flag; alerts start out enabled.
    pub fn new() -> (r: AudioFlag)
        ensures
            r.enabled,
    {
        AudioFlag { enabled: true }
    }

    /// Flips the flag and returns the new value.
    pub fn toggle(&mut self) -> (r: bool)
        ensures
            final(self).enabled == !old(self).enabled,
            r == final(self).enabled,
    {
        self.enabled = !self.enabled;
        self.enabled
    }

    /// A pure read of the flag.
    pub fn is_enabled(&self) -> (r: bool)
        ensures
            r == self.enabled,
    {
        self.enabled
    }
}

/// The value of a boolean cell after `n` flips of an initial value.
pub open spec fn toggled_n(init: bool, n: nat) -> bool
    decreases n,
{
    if n == 0 {
        init
    } else {
        !toggled_n(init, (n - 1) as nat)
    }
}

/// After `n` toggles the flag reads `init XOR (n mod 2 == 1)`: an even
/// number of toggles restores the initial value, an odd number flips it.
pub proof fn lemma_toggle_parity(init: bool, n: nat)
    ensures
        toggled_n(init, n) == (init ^ (n % 2 == 1)),
    decreases n,
{
    if n > 0 {
        lemma_toggle_parity(init, (n - 1) as nat);
    }
}

} // verus!
