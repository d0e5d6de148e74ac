//! An 8-bit down-counting timer.
//!
//! Instructions read and write the counter instantaneously; an externally
//! driven fixed-rate tick decrements it, stopping at zero.

use vstd::prelude::*;

verus! {

/// One tick of a timer: count down by one, but never below zero.
pub open spec fn spec_tick(v: u8) -> u8 {
    if v == 0 {
        0u8
    } else {
        (v - 1) as u8
    }
}

/// An 8-bit counter that a fixed-rate tick decrements towards zero.
#[derive(Debug, Clone, Copy)]
pub struct Timer {
    val: u8,
}

impl View for Timer {
    type V = u8;

    closed spec fn view(&self) -> u8 {
        self.val
    }
}

impl Timer {
    /// A fresh timer at zero.
    pub fn new() -> (t: Timer)
        ensures
            t@ == 0u8,
    {
        Timer { val: 0 }
    }

    /// Counts up by one, wrapping modulo 256.
    pub fn increment(&mut self)
        ensures
            final(self)@ == ((old(self)@ + 1) % 256) as u8,
    {
        self.val = self.val.wrapping_add(1);
    }

    /// One externally driven tick: counts down by one, stopping at zero.
    pub fn decrement(&mut self)
        ensures
            final(self)@ == spec_tick(old(self)@),
    {
        if self.val > 0 {
            self.val = self.val - 1;
        }
    }

    /// Writes the counter.
    pub fn set_value(&mut self, val: u8)
        ensures
            final(self)@ == val,
    {
        self.val = val;
    }

    /// Reads the counter.
    pub fn get_value(&self) -> (v: u8)
        ensures
            v == self@,
    {
        self.val
    }
}

/// The counter after `n` ticks.
pub open spec fn spec_ticks(v: u8, n: nat) -> u8
    decreases n,
{
    if n == 0 {
        v
    } else {
        spec_tick(spec_ticks(v, (n - 1) as nat))
    }
}

/// A tick never takes the counter below zero: any number of ticks on a
/// zero timer leaves it at zero, and a tick never increases the count.
pub proof fn lemma_tick_floor(v: u8, n: nat)
    ensures
        spec_ticks(0u8, n) == 0u8,
        spec_tick(v) <= v,
    decreases n,
{
    if n > 0 {
        lemma_tick_floor(v, (n - 1) as nat);
    }
}

} // verus!
