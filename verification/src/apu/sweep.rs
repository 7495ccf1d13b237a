//! The frequency sweep of channel 1: pace, direction and shift, a shadow
//! copy of the period, and the published quirks — the double overflow
//! check on each sweep tick, and the immediate channel cut when the
//! negate bit is cleared after a negate calculation.

use vstd::prelude::*;

verus! {

#[derive(Clone, Copy, Debug, PartialEq, Eq, Structural)]
pub struct Sweep {
    pub pace: u8,
    pub direction: u8,
    pub shift: u8,
    pub period_shadow: u16,
    pub enabled: bool,
    pub timer: u8,
    pub used_negative: bool,
}

impl Sweep {
    pub open spec fn wf(self) -> bool {
        &&& self.pace < 8
        &&& self.direction < 2
        &&& self.shift < 8
        &&& self.period_shadow <= 0x7ff
        &&& self.timer < 8
    }

    pub fn new() -> (r: Sweep)
        ensures
            r == (Sweep {
                pace: 0u8,
                direction: 0u8,
                shift: 0u8,
                period_shadow: 0u16,
                enabled: false,
                timer: 0u8,
                used_negative: false,
            }),
            r.wf(),
    {
        Sweep {
            pace: 0,
            direction: 0,
            shift: 0,
            period_shadow: 0,
            enabled: false,
            timer: 0,
            used_negative: false,
        }
    }

    /// The raw sweep calculation: the shadow period plus or minus the
    /// shadow period shifted right by `shift`, before any masking.
    pub open spec fn check_value(self) -> int {
        let d = self.period_shadow >> (self.shift as u16);
        if self.direction == 0 {
            self.period_shadow + d
        } else {
            self.period_shadow - d
        }
    }

    /// Whether the raw sweep calculation overflows the 11-bit period.
    pub open spec fn check_overflows(self) -> bool {
        self.check_value() > 0x7ff
    }

    /// The sweep state after one calculation: a negate-mode calculation is
    /// remembered for the negate-clear quirk.
    pub open spec fn after_check(self) -> Sweep {
        if self.direction == 1 {
            Sweep { used_negative: true, ..self }
        } else {
            self
        }
    }

    /// Performs one sweep calculation: yields the new 11-bit period and,
    /// when the calculation overflowed, the order to disable the channel.
    pub fn overflow_check(&mut self) -> (r: (u16, Option<bool>))
        requires
            old(self).wf(),
        ensures
            *final(self) == old(self).after_check(),
            final(self).wf(),
            r.0 == old(self).check_value() % 0x800,
            r.1 == (if old(self).check_overflows() {
                Some(false)
            } else {
                Option::<bool>::None
            }),
            !old(self).check_overflows() ==> r.0 == old(self).check_value(),
    {
        proof {
            crate::util::lemma_u16_shr_le(self.period_shadow, self.shift as u16);
        }
        let d = self.period_shadow >> (self.shift as u16);
        let n: u16 = if self.direction == 0 {
            self.period_shadow + d
        } else {
            self.used_negative = true;
            self.period_shadow - d
        };
        if n > 0x7ff {
            (n % 0x800, Some(false))
        } else {
            (n, None)
        }
    }

    /// The sweep state, period update and enable update produced by one
    /// sweep tick of the `div-apu` sequencer.  An idle tick (channel off,
    /// pace 0, sweep disabled, or timer still running) only moves the
    /// timer; an active tick runs the calculation, and with a non-zero
    /// shift writes the result back to the shadow period, reports it as
    /// the channel's new period, and runs the second overflow check.
    pub open spec fn clock_spec(pre: Sweep, ch_enabled: bool) -> (Sweep, Option<u16>, Option<
        bool,
    >) {
        let timer_next: u8 = if pre.timer == 0 {
            if pre.pace == 0 {
                7u8
            } else {
                (pre.pace - 1) as u8
            }
        } else {
            (pre.timer - 1) as u8
        };
        if !(ch_enabled && pre.pace != 0 && pre.enabled && pre.timer == 0) {
            (Sweep { timer: timer_next, ..pre }, None, None)
        } else {
            let upd1: Option<bool> = if pre.check_overflows() {
                Some(false)
            } else {
                None
            };
            if pre.shift != 0 {
                let n = (pre.check_value() % 0x800) as u16;
                let s2 = Sweep { period_shadow: n, ..pre.after_check() };
                let upd2: Option<bool> = if s2.check_overflows() {
                    Some(false)
                } else {
                    None
                };
                let upd = if upd1 is Some {
                    upd1
                } else {
                    upd2
                };
                (Sweep { timer: timer_next, ..s2.after_check() }, Some(n), upd)
            } else {
                (Sweep { timer: timer_next, ..pre.after_check() }, None, upd1)
            }
        }
    }

    /// One sweep tick.  The result carries the channel's new period, if
    /// any, and the order to disable the channel, if any.
    pub fn clock(&mut self, ch_enabled: bool) -> (r: (Option<u16>, Option<bool>))
        requires
            old(self).wf(),
        ensures
            *final(self) == Sweep::clock_spec(*old(self), ch_enabled).0,
            r.0 == Sweep::clock_spec(*old(self), ch_enabled).1,
            r.1 == Sweep::clock_spec(*old(self), ch_enabled).2,
            final(self).wf(),
            r.0 matches Some(p) ==> p <= 0x7ff,
    {
        let ret: (Option<u16>, Option<bool>) = if ch_enabled && self.pace != 0 && self.enabled
            && self.timer == 0 {
            let (n_period, update_enabled) = self.overflow_check();
            let mut update_period: Option<u16> = None;
            let mut update_enabled_2: Option<bool> = None;
            if self.shift != 0 {
                self.period_shadow = n_period;
                update_period = Some(self.period_shadow);
                let (_, upd) = self.overflow_check();
                update_enabled_2 = upd;
            }
            let update_enabled = if update_enabled.is_some() {
                update_enabled
            } else if update_enabled_2.is_some() {
                update_enabled_2
            } else {
                None
            };
            (update_period, update_enabled)
        } else {
            (None, None)
        };
        if self.timer == 0 {
            self.timer = if self.pace == 0 {
                7
            } else {
                self.pace - 1
            };
        } else {
            self.timer = self.timer - 1;
        }
        ret
    }

    /// The sweep state after a channel trigger, and whether the immediate
    /// overflow check ordered the channel off: the shadow period reloads,
    /// the negate memory clears, the timer restarts, the unit arms itself
    /// when pace or shift is non-zero, and a non-zero shift runs one
    /// calculation at once.
    pub open spec fn trigger_spec(pre: Sweep, period: u16) -> (Sweep, Option<bool>) {
        let s1 = Sweep {
            used_negative: false,
            period_shadow: period,
            timer: if pre.pace == 0 {
                7u8
            } else {
                (pre.pace - 1) as u8
            },
            enabled: pre.pace > 0 || pre.shift > 0,
            ..pre
        };
        if pre.shift > 0 {
            let upd: Option<bool> = if s1.check_overflows() {
                Some(false)
            } else {
                None
            };
            (s1.after_check(), upd)
        } else {
            (s1, None)
        }
    }

    pub fn trigger(&mut self, period: u16) -> (r: Option<bool>)
        requires
            old(self).wf(),
            period <= 0x7ff,
        ensures
            *final(self) == Sweep::trigger_spec(*old(self), period).0,
            r == Sweep::trigger_spec(*old(self), period).1,
            final(self).wf(),
    {
        self.used_negative = false;
        self.period_shadow = period;
        self.timer = if self.pace == 0 {
            7
        } else {
            self.pace - 1
        };
        self.enabled = self.pace > 0 || self.shift > 0;
        if self.shift > 0 {
            let (_, update_enabled) = self.overflow_check();
            update_enabled
        } else {
            None
        }
    }
}

} // verus!
