use vstd::prelude::*;

verus! {

/// The delay timer: a byte that counts down towards zero once per tick.
///
/// The interpreter sets and reads it; a separate clock ticks it at 60 Hz.
/// Callers that share it between those two contexts keep every access under
/// one lock, so that no decrement is lost and no read is torn.
pub struct DelayTimer {
    value: u8,
}

/// The value of a timer holding `v` after one tick.
pub open spec fn tick_value(v: u8) -> u8 {
    if v > 0 {
        (v - 1) as u8
    } else {
        0
    }
}

/// The value of a timer holding `v` after `k` ticks.
pub open spec fn after_ticks(v: u8, k: nat) -> u8
    decreases k,
{
    if k == 0 {
        v
    } else {
        tick_value(after_ticks(v, (k - 1) as nat))
    }
}

impl View for DelayTimer {
    type V = u8;

    closed spec fn view(&self) -> u8 {
        self.value
    }
}

impl DelayTimer {
    /// A timer that has run down.
    pub fn new() -> (r: DelayTimer)
        ensures
            r@ == 0,
    {
        DelayTimer { value: 0 }
    }

    /// Loads `v`; the countdown goes on from there.
    pub fn set(&mut self, v: u8)
        ensures
            final(self)@ == v,
    {
        self.value = v;
    }

    /// The current value.
    pub fn read(&self) -> (r: u8)
        ensures
            r == self@,
    {
        self.value
    }

    /// One tick of the clock: one less, never below zero.
    pub fn tick(&mut self)
        ensures
            final(self)@ == tick_value(old(self)@),
    {
        if self.value > 0 {
            self.value = self.value - 1;
        }
    }
}

/// A timer loaded with `v` reads `v - k` after `k` ticks, and zero from the
/// `v`-th tick on: after `v` ticks it reads zero, and after fewer ticks, at
/// least one, it reads less than `v`.
pub proof fn lemma_countdown(v: u8, k: nat)
    ensures
        after_ticks(v, k) == if k >= v { 0 } else { v - k },
        k >= v ==> after_ticks(v, k) == 0,
        0 < k < v ==> after_ticks(v, k) < v,
    decreases k,
{
    if k > 0 {
        lemma_countdown(v, (k - 1) as nat);
    }
}

} // verus!
