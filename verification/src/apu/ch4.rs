//! The noise channel: a 15-bit (or 7-bit) linear-feedback shift register
//! clocked every `divisor << shift` m-cycles, with a length counter and a
//! volume envelope, behind NR41-NR44.

use vstd::prelude::*;
use crate::apu::envelope::Envelope;
use crate::apu::length::Length;

verus! {

#[derive(Clone, Copy, Debug, PartialEq, Eq, Structural)]
pub struct Ch4 {
    /// NR43 bits 7..4: how far the divisor is shifted left.
    pub clock_shift: u8,
    /// NR43 bit 3: 1 narrows the register to 7 bits.
    pub lfsr_width: u8,
    /// NR43 bits 2..0: the divisor code.
    pub clock_divider: u8,
    pub enabled: bool,
    pub dac_enabled: bool,
    pub length: Length,
    pub lfsr: u16,
    pub timer: usize,
    pub envelope: Envelope,
}

/// The m-cycle count between LFSR steps: an eighth of the published
/// master-tick divisor 8, 16, 32, ..., 112 (so 2, 4, 6, ..., 28),
/// shifted left by the clock shift.
pub open spec fn timer_period(divider: u8, shift: u8) -> int {
    (if divider == 0 {
        2int
    } else {
        4 * divider
    }) * vstd::arithmetic::power2::pow2(shift as nat)
}

/// One step of the shift register: the XNOR of the low two bits enters at
/// bit 15 (and bit 7 in narrow mode) before the whole register shifts
/// right; the output is bit 0.
pub open spec fn lfsr_next(lfsr: u16, width: u8) -> u16 {
    let x: u16 = if (lfsr & 1) == ((lfsr >> 1) & 1) {
        1
    } else {
        0
    };
    let with_top = ((lfsr & 0x7fff) | (x << 15)) as u16;
    let with_mid: u16 = if width == 1 {
        ((with_top & 0xff7f) | (x << 7)) as u16
    } else {
        with_top
    };
    with_mid >> 1
}

impl Ch4 {
    pub open spec fn wf(self) -> bool {
        &&& self.clock_shift < 16
        &&& self.lfsr_width < 2
        &&& self.clock_divider < 8
        &&& self.envelope.wf()
        &&& self.enabled ==> self.timer >= 1
    }

    pub fn new() -> (r: Ch4)
        ensures
            r == Ch4::cleared(Length { length: 0, enable: false }),
            r.wf(),
    {
        Ch4 {
            clock_shift: 0,
            lfsr_width: 0,
            clock_divider: 0,
            enabled: false,
            dac_enabled: false,
            length: Length::new(),
            lfsr: 0,
            timer: 0,
            envelope: Envelope::new(),
        }
    }

    /// The channel with everything reset but the length counter, which an
    /// APU power-off preserves.
    pub open spec fn cleared(length: Length) -> Ch4 {
        Ch4 {
            clock_shift: 0,
            lfsr_width: 0,
            clock_divider: 0,
            enabled: false,
            dac_enabled: false,
            length: Length { enable: false, ..length },
            lfsr: 0,
            timer: 0,
            envelope: Envelope { initial_volume: 0, direction: 0, pace: 0, volume: 0, timer: 0 },
        }
    }

    /// An APU power-off clears every register but keeps the length count.
    pub fn clear(&mut self)
        ensures
            *final(self) == Ch4::cleared(old(self).length),
            final(self).wf(),
    {
        let length = self.length;
        *self = Ch4::new();
        self.length = Length { length: length.length, enable: false };
    }

    /// Reloads the LFSR timer from the divisor table and clock shift.
    fn reset_timer(&mut self)
        requires
            old(self).clock_shift < 16,
            old(self).clock_divider < 8,
        ensures
            *final(self) == (Ch4 {
                timer: Ch4::reset_timer_value(*old(self)) as usize,
                ..*old(self)
            }),
            final(self).timer >= 1,
            1 <= Ch4::reset_timer_value(*old(self)) <= 28 * 0x8000,
    {
        proof {
            vstd::arithmetic::power2::lemma2_to64();
            lemma_timer_period_bound(self.clock_divider, self.clock_shift);
        }
        let divisor: usize = match self.clock_divider {
            0 => 2,
            1 => 4,
            2 => 8,
            3 => 12,
            4 => 16,
            5 => 20,
            6 => 24,
            _ => 28,
        };
        let mut p: usize = divisor;
        let mut s: u8 = self.clock_shift;
        while s > 0
            invariant
                p == timer_period(self.clock_divider, (self.clock_shift - s) as u8),
                s <= self.clock_shift,
                self.clock_shift < 16,
                self.clock_divider < 8,
                p >= 1,
                p <= 28 * 0x8000,
            decreases s,
        {
            proof {
                lemma_pow2_step(self.clock_divider, (self.clock_shift - s) as u8);
                lemma_timer_period_bound(self.clock_divider, (self.clock_shift - s + 1) as u8);
            }
            p = p * 2;
            s = s - 1;
        }
        self.timer = p;
    }

    /// The value `reset_timer` loads: the divisor table entry shifted by
    /// the clock shift.
    pub open spec fn reset_timer_value(c: Ch4) -> int {
        timer_period(c.clock_divider, c.clock_shift)
    }

    /// What each register reads back as, unused bits high.
    pub open spec fn read_spec(self, addr: u16) -> u8 {
        if addr == 0xff20 {
            0xff
        } else if addr == 0xff21 {
            (self.envelope.initial_volume * 16 + self.envelope.direction * 8
                + self.envelope.pace) as u8
        } else if addr == 0xff22 {
            (self.clock_shift * 16 + self.lfsr_width * 8 + self.clock_divider) as u8
        } else {
            if self.length.enable {
                0xff
            } else {
                0xbf
            }
        }
    }

    pub fn read(&self, addr: u16) -> (r: u8)
        requires
            self.wf(),
            0xff20 <= addr <= 0xff23,
        ensures
            r == self.read_spec(addr),
    {
        match addr {
            0xff20 => 0xff,
            0xff21 => self.envelope.initial_volume * 16 + self.envelope.direction * 8
                + self.envelope.pace,
            0xff22 => self.clock_shift * 16 + self.lfsr_width * 8 + self.clock_divider,
            _ => if self.length.enable {
                0xff
            } else {
                0xbf
            },
        }
    }

    /// The exact effect of a register write, as `write`'s contract
    /// states it.
    pub open spec fn write_post(pre: Ch4, post: Ch4, div_apu: u8, addr: u16, val: u8) -> bool {
        &&& addr == 0xff20 ==> post == (Ch4 {
                length: Length { length: (64 - val % 64) as u16, ..pre.length },
                ..pre
            })
        &&& addr == 0xff21 ==> post == (Ch4 {
                envelope: Envelope {
                    initial_volume: (val / 16) as u8,
                    direction: (val / 8 % 2) as u8,
                    pace: (val % 8) as u8,
                    ..pre.envelope
                },
                dac_enabled: val >= 8,
                enabled: pre.enabled && val >= 8,
                ..pre
            })
        &&& addr == 0xff22 ==> post == (Ch4 {
                clock_shift: (val / 16) as u8,
                lfsr_width: (val / 8 % 2) as u8,
                clock_divider: (val % 8) as u8,
                ..pre
            })
        &&& addr == 0xff23 ==> {
                let (length, expired) = Length::write_nrx4_result(
                    pre.length,
                    val / 64 % 2 == 1,
                    div_apu,
                );
                if val >= 0x80 {
                    post == (Ch4 {
                        length: Length::trigger_spec(length, 64, div_apu),
                        envelope: Envelope {
                            volume: pre.envelope.initial_volume,
                            timer: pre.envelope.pace,
                            ..pre.envelope
                        },
                        timer: Ch4::reset_timer_value(pre) as usize,
                        lfsr: 0u16,
                        enabled: pre.dac_enabled,
                        ..pre
                    })
                } else {
                    post == (Ch4 {
                        length,
                        enabled: pre.enabled && !expired,
                        ..pre
                    })
                }
            }
    }

    /// How a write to each register changes the channel.  The length load
    /// (NR41) lands even while the APU is off; clearing the DAC (the high
    /// five bits of NR42) silences the channel at once; a trigger resets
    /// the LFSR and its timer unless the DAC is off.
    pub fn write(&mut self, div_apu: u8, addr: u16, val: u8)
        requires
            old(self).wf(),
            0xff20 <= addr <= 0xff23,
        ensures
            final(self).wf(),
            Ch4::write_post(*old(self), *final(self), div_apu, addr, val),
    {
        match addr {
            0xff20 => {
                self.length.length = 64 - (val % 64) as u16;
            },
            0xff21 => {
                self.envelope.initial_volume = val / 16;
                self.envelope.direction = val / 8 % 2;
                self.envelope.pace = val % 8;
                self.dac_enabled = val >= 8;
                if !self.dac_enabled {
                    self.enabled = false;
                }
            },
            0xff22 => {
                self.clock_shift = val / 16;
                self.lfsr_width = val / 8 % 2;
                self.clock_divider = val % 8;
            },
            _ => {
                let length_enable = val / 64 % 2 == 1;
                if self.length.write_nrx4(length_enable, div_apu) {
                    self.enabled = false;
                }
                if val >= 0x80 {
                    self.envelope.trigger();
                    self.length.trigger(64, div_apu);
                    self.reset_timer();
                    self.lfsr = 0;
                    self.enabled = self.dac_enabled;
                }
            },
        }
    }

    /// The channel after one `div-apu` step: the length counter ticks on
    /// even steps and can silence the channel; the envelope ticks on step
    /// 7.
    pub open spec fn clock_spec(pre: Ch4, div_apu: u8) -> Ch4 {
        let (length, expired) = if div_apu % 2 == 0 {
            Length::clock_result(pre.length)
        } else {
            (pre.length, false)
        };
        Ch4 {
            length,
            enabled: if expired {
                false
            } else {
                pre.enabled
            },
            envelope: if div_apu == 7 {
                Envelope::clock_spec(pre.envelope)
            } else {
                pre.envelope
            },
            ..pre
        }
    }

    pub fn clock(&mut self, div_apu: u8)
        requires
            old(self).wf(),
        ensures
            *final(self) == Ch4::clock_spec(*old(self), div_apu),
            final(self).wf(),
    {
        if div_apu % 2 == 0 {
            if self.length.clock() {
                self.enabled = false;
            }
        }
        if div_apu == 7 {
            self.envelope.clock();
        }
    }

    /// One m-cycle: while the channel runs its timer counts down, and on
    /// reaching zero it reloads and the shift register steps.
    pub fn clock_fast(&mut self)
        requires
            old(self).wf(),
        ensures
            final(self).wf(),
            !old(self).enabled ==> *final(self) == *old(self),
            old(self).enabled && old(self).timer > 1 ==> *final(self) == (Ch4 {
                timer: (old(self).timer - 1) as usize,
                ..*old(self)
            }),
            old(self).enabled && old(self).timer == 1 ==> *final(self) == (Ch4 {
                timer: Ch4::reset_timer_value(*old(self)) as usize,
                lfsr: lfsr_next(old(self).lfsr, old(self).lfsr_width),
                ..*old(self)
            }),
    {
        if self.enabled {
            self.timer = self.timer - 1;
            if self.timer == 0 {
                self.reset_timer();
                self.update_lfsr();
            }
        }
    }

    /// Steps the shift register once.
    fn update_lfsr(&mut self)
        ensures
            *final(self) == (Ch4 {
                lfsr: lfsr_next(old(self).lfsr, old(self).lfsr_width),
                ..*old(self)
            }),
    {
        let x: u16 = if (self.lfsr & 1) == ((self.lfsr >> 1) & 1) {
            1
        } else {
            0
        };
        self.lfsr = (self.lfsr & 0x7fff) | (x << 15);
        if self.lfsr_width == 1 {
            self.lfsr = (self.lfsr & 0xff7f) | (x << 7);
        }
        self.lfsr = self.lfsr >> 1;
    }

    /// The channel's output sample scaled by 15: bit 0 of the LFSR times
    /// the envelope volume; a silent channel contributes zero.
    pub open spec fn amplitude_spec(self) -> int {
        if self.dac_enabled && self.enabled {
            2 * ((self.lfsr & 1) * self.envelope.volume) - self.envelope.volume
        } else {
            0
        }
    }

    pub fn amplitude(&self) -> (r: i16)
        requires
            self.wf(),
        ensures
            r == self.amplitude_spec(),
            -15 <= r <= 15,
    {
        if self.dac_enabled && self.enabled {
            let v = self.envelope.volume as i16;
            let ghost l = self.lfsr;
            proof {
                assert(l & 1 == 0 || l & 1 == 1) by (bit_vector);
            }
            let level: i16 = if self.lfsr & 1 == 1 {
                v
            } else {
                0
            };
            2 * level - v
        } else {
            0
        }
    }
}

/// Doubling the period of one shift step gives the period of the next.
proof fn lemma_pow2_step(divider: u8, shift: u8)
    requires
        shift < 15,
    ensures
        timer_period(divider, (shift + 1) as u8) == 2 * timer_period(divider, shift),
{
    let base: int = if divider == 0 {
        2int
    } else {
        4 * divider
    };
    vstd::arithmetic::power2::lemma_pow2_unfold((shift + 1) as nat);
    let p = vstd::arithmetic::power2::pow2(shift as nat) as int;
    assert(base * (2 * p) == 2 * (base * p)) by (nonlinear_arith);
}

/// The LFSR timer period never exceeds 28 times 2^15.
proof fn lemma_timer_period_bound(divider: u8, shift: u8)
    requires
        divider < 8,
        shift < 16,
    ensures
        1 <= timer_period(divider, shift) <= 28 * 0x8000,
{
    let base: int = if divider == 0 {
        2int
    } else {
        4 * divider
    };
    vstd::arithmetic::power2::lemma2_to64();
    vstd::arithmetic::power2::lemma_pow2_pos(shift as nat);
    if (shift as nat) < 15 {
        vstd::arithmetic::power2::lemma_pow2_strictly_increases(shift as nat, 15);
    }
    let p = vstd::arithmetic::power2::pow2(shift as nat) as int;
    assert(1 <= p <= 0x8000);
    assert(base * p >= 1 && base * p <= 28 * 0x8000) by (nonlinear_arith)
        requires
            1 <= base <= 28,
            1 <= p <= 0x8000,
    ;
}

} // verus!
