//! The length counter shared by all four channels: a down-counter that
//! silences its channel when it runs out while length-enable is set.  The
//! pulse and noise channels count to 64, the wave channel to 256.

use vstd::prelude::*;

verus! {

#[derive(Clone, Copy, Debug, PartialEq, Eq, Structural)]
pub struct Length {
    pub length: u16,
    pub enable: bool,
}

impl Length {
    pub fn new() -> (r: Length)
        ensures
            r == (Length { length: 0u16, enable: false }),
    {
        Length { length: 0, enable: false }
    }

    /// The counter after one length tick, and whether it just expired:
    /// while enabled and non-zero it counts down, expiring on the step
    /// that reaches zero; otherwise nothing happens.
    pub open spec fn clock_result(pre: Length) -> (Length, bool) {
        if pre.enable && pre.length > 0 {
            (Length { length: (pre.length - 1) as u16, ..pre }, pre.length == 1)
        } else {
            (pre, false)
        }
    }

    /// Clocks the counter once; the result tells the channel to disable
    /// itself.
    pub fn clock(&mut self) -> (expired: bool)
        ensures
            *final(self) == Length::clock_result(*old(self)).0,
            expired == Length::clock_result(*old(self)).1,
    {
        if self.enable && self.length > 0 {
            self.length = self.length - 1;
            self.length == 0
        } else {
            false
        }
    }

    /// The counter after an NRx4 write, and whether the write itself
    /// expired it: setting length-enable while the sequencer is in the
    /// first half of a length period (odd `div-apu`) clocks the counter
    /// one extra time.
    pub open spec fn write_nrx4_result(pre: Length, length_enable: bool, div_apu: u8) -> (
        Length,
        bool,
    ) {
        let set = Length { enable: length_enable, ..pre };
        if div_apu % 2 == 1 && length_enable && !pre.enable && pre.length != 0 {
            Length::clock_result(set)
        } else {
            (set, false)
        }
    }

    /// Latches length-enable from an NRx4 write; the result tells the
    /// channel to disable itself.
    pub fn write_nrx4(&mut self, length_enable: bool, div_apu: u8) -> (expired: bool)
        ensures
            *final(self) == Length::write_nrx4_result(*old(self), length_enable, div_apu).0,
            expired == Length::write_nrx4_result(*old(self), length_enable, div_apu).1,
    {
        let prev_enabled = self.enable;
        self.enable = length_enable;
        if (div_apu % 2 == 1) && self.enable && !prev_enabled && self.length != 0 {
            self.clock()
        } else {
            false
        }
    }

    /// The counter after a channel trigger: an exhausted counter reloads
    /// to its maximum, one less when length is already enabled in the
    /// first half of a length period.
    pub open spec fn trigger_spec(pre: Length, reset: u16, div_apu: u8) -> Length {
        if pre.length == 0 {
            Length {
                length: if div_apu % 2 == 1 && pre.enable {
                    (reset - 1) as u16
                } else {
                    reset
                },
                ..pre
            }
        } else {
            pre
        }
    }

    pub fn trigger(&mut self, reset: u16, div_apu: u8)
        requires
            reset >= 1,
        ensures
            *final(self) == Length::trigger_spec(*old(self), reset, div_apu),
    {
        if self.length == 0 {
            self.length = if (div_apu % 2 == 1) && self.enable {
                reset - 1
            } else {
                reset
            };
        }
    }

    /// Powering the unit off clears length-enable but keeps the counter.
    pub fn clear(&mut self)
        ensures
            *final(self) == (Length { enable: false, ..*old(self) }),
    {
        self.enable = false;
    }
}

/// The counter after `n` length ticks.
pub open spec fn clock_n(pre: Length, n: nat) -> Length
    decreases n,
{
    if n == 0 {
        pre
    } else {
        Length::clock_result(clock_n(pre, (n - 1) as nat)).0
    }
}

/// While enabled, `k` ticks take the counter from `L` to `L - k`.
pub proof fn lemma_clock_n_counts_down(pre: Length, k: nat)
    requires
        pre.enable,
        k <= pre.length,
    ensures
        clock_n(pre, k) == (Length { length: (pre.length - k) as u16, enable: true }),
    decreases k,
{
    if k > 0 {
        lemma_clock_n_counts_down(pre, (k - 1) as nat);
    }
}

/// A channel whose length counter holds `L` with length-enable set expires
/// on exactly the `L`-th length tick: the tick that reaches zero reports
/// expiry, and no earlier tick does.
pub proof fn lemma_length_expiry(pre: Length, k: nat)
    requires
        pre.enable,
        pre.length > 0,
        k < pre.length,
    ensures
        Length::clock_result(clock_n(pre, k)).1 <==> k == pre.length - 1,
{
    lemma_clock_n_counts_down(pre, k);
}

} // verus!
