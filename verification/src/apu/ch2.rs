//! Pulse channel 2: the same duty oscillator, length counter and volume
//! envelope as channel 1, without the sweep, behind NR21-NR24.

use vstd::prelude::*;
use crate::apu::duty_cycle::DutyCycle;
use crate::apu::duty_cycle::duty_wave;
use crate::apu::envelope::Envelope;
use crate::apu::length::Length;

verus! {

#[derive(Clone, Copy, Debug, PartialEq, Eq, Structural)]
pub struct Ch2 {
    /// The 11-bit period shared by NR23 and NR24.
    pub period: u16,
    pub enabled: bool,
    pub dac_enabled: bool,
    pub duty_cycle: DutyCycle,
    pub length: Length,
    pub envelope: Envelope,
}

impl Ch2 {
    pub open spec fn wf(self) -> bool {
        &&& self.period <= 0x7ff
        &&& self.duty_cycle.wf()
        &&& self.envelope.wf()
    }

    pub fn new() -> (r: Ch2)
        ensures
            r == Ch2::cleared(Length { length: 0, enable: false }),
            r.wf(),
    {
        Ch2 {
            period: 0,
            enabled: false,
            dac_enabled: false,
            duty_cycle: DutyCycle::new(),
            length: Length::new(),
            envelope: Envelope::new(),
        }
    }

    /// The channel with everything reset but the length counter, which an
    /// APU power-off preserves.
    pub open spec fn cleared(length: Length) -> Ch2 {
        Ch2 {
            period: 0,
            enabled: false,
            dac_enabled: false,
            duty_cycle: DutyCycle { counter: None, position: 0, pattern: 0 },
            length: Length { enable: false, ..length },
            envelope: Envelope { initial_volume: 0, direction: 0, pace: 0, volume: 0, timer: 0 },
        }
    }

    /// An APU power-off clears every register but keeps the length count.
    pub fn clear(&mut self)
        ensures
            *final(self) == Ch2::cleared(old(self).length),
            final(self).wf(),
    {
        let length = self.length;
        *self = Ch2::new();
        self.length = Length { length: length.length, enable: false };
    }

    /// What each register reads back as, unused bits high.
    pub open spec fn read_spec(self, addr: u16) -> u8 {
        if addr == 0xff16 {
            (0x3f + self.duty_cycle.pattern * 64) as u8
        } else if addr == 0xff17 {
            (self.envelope.initial_volume * 16 + self.envelope.direction * 8
                + self.envelope.pace) as u8
        } else if addr == 0xff18 {
            0xff
        } else {
            if self.length.enable {
                0xff
            } else {
                0xbf
            }
        }
    }

    pub fn read(&self, addr: u16) -> (r: u8)
        requires
            self.wf(),
            0xff16 <= addr <= 0xff19,
        ensures
            r == self.read_spec(addr),
    {
        match addr {
            0xff16 => 0x3f + self.duty_cycle.pattern * 64,
            0xff17 => self.envelope.initial_volume * 16 + self.envelope.direction * 8
                + self.envelope.pace,
            0xff18 => 0xff,
            _ => if self.length.enable {
                0xff
            } else {
                0xbf
            },
        }
    }

    /// The channel after a write to NR24: the period high bits land, the
    /// length-enable write may expire the counter, and a trigger restarts
    /// the channel unless the DAC is off.
    pub open spec fn write_nr24_spec(pre: Ch2, div_apu: u8, val: u8) -> Ch2 {
        let period = ((val % 8) * 256 + pre.period % 256) as u16;
        let (length, expired) = Length::write_nrx4_result(pre.length, val / 64 % 2 == 1, div_apu);
        let enabled0 = if expired {
            false
        } else {
            pre.enabled
        };
        if val >= 0x80 {
            Ch2 {
                period,
                length: Length::trigger_spec(length, 64, div_apu),
                envelope: Envelope {
                    volume: pre.envelope.initial_volume,
                    timer: pre.envelope.pace,
                    ..pre.envelope
                },
                enabled: pre.dac_enabled,
                ..pre
            }
        } else {
            Ch2 { period, length, enabled: enabled0, ..pre }
        }
    }

    /// How a write to each register changes the channel.  Length writes
    /// (the low six bits of NR21) land even while the APU is off; the duty
    /// bits do not.  Clearing the DAC (the high five bits of NR22)
    /// silences the channel at once.
    pub open spec fn write_spec(pre: Ch2, div_apu: u8, addr: u16, val: u8, apu_on: bool) -> Ch2 {
        if addr == 0xff16 {
            Ch2 {
                duty_cycle: if apu_on {
                    DutyCycle { pattern: (val / 64) as u8, ..pre.duty_cycle }
                } else {
                    pre.duty_cycle
                },
                length: Length { length: (64 - val % 64) as u16, ..pre.length },
                ..pre
            }
        } else if addr == 0xff17 {
            Ch2 {
                envelope: Envelope {
                    initial_volume: (val / 16) as u8,
                    direction: (val / 8 % 2) as u8,
                    pace: (val % 8) as u8,
                    ..pre.envelope
                },
                dac_enabled: val >= 8,
                enabled: if val >= 8 {
                    pre.enabled
                } else {
                    false
                },
                ..pre
            }
        } else if addr == 0xff18 {
            Ch2 { period: (pre.period / 256 * 256 + val) as u16, ..pre }
        } else {
            Ch2::write_nr24_spec(pre, div_apu, val)
        }
    }

    pub fn write(&mut self, div_apu: u8, addr: u16, val: u8, apu_on: bool)
        requires
            old(self).wf(),
            0xff16 <= addr <= 0xff19,
        ensures
            *final(self) == Ch2::write_spec(*old(self), div_apu, addr, val, apu_on),
            final(self).wf(),
    {
        match addr {
            0xff16 => {
                if apu_on {
                    self.duty_cycle.pattern = val / 64;
                }
                self.length.length = 64 - (val % 64) as u16;
            },
            0xff17 => {
                self.envelope.initial_volume = val / 16;
                self.envelope.direction = val / 8 % 2;
                self.envelope.pace = val % 8;
                self.dac_enabled = val >= 8;
                if !self.dac_enabled {
                    self.enabled = false;
                }
            },
            0xff18 => {
                self.period = self.period / 256 * 256 + val as u16;
            },
            _ => {
                self.period = (val % 8) as u16 * 256 + self.period % 256;
                let length_enable = val / 64 % 2 == 1;
                if self.length.write_nrx4(length_enable, div_apu) {
                    self.enabled = false;
                }
                if val >= 0x80 {
                    self.enabled = self.dac_enabled;
                    self.length.trigger(64, div_apu);
                    self.envelope.trigger();
                }
            },
        }
    }

    /// The channel after one `div-apu` step: the length counter ticks on
    /// even steps and can silence the channel; the envelope ticks on step
    /// 7.
    pub open spec fn clock_spec(pre: Ch2, div_apu: u8) -> Ch2 {
        let (length, expired) = if div_apu % 2 == 0 {
            Length::clock_result(pre.length)
        } else {
            (pre.length, false)
        };
        Ch2 {
            length,
            enabled: if expired {
                false
            } else {
                pre.enabled
            },
            envelope: if div_apu == 7 {
                Envelope::clock_spec(pre.envelope)
            } else {
                pre.envelope
            },
            ..pre
        }
    }

    pub fn clock(&mut self, div_apu: u8)
        requires
            old(self).wf(),
        ensures
            *final(self) == Ch2::clock_spec(*old(self), div_apu),
            final(self).wf(),
    {
        if div_apu % 2 == 0 {
            if self.length.clock() {
                self.enabled = false;
            }
        }
        if div_apu == 7 {
            self.envelope.clock();
        }
    }

    /// One m-cycle: the duty oscillator advances while the channel runs.
    pub fn clock_fast(&mut self)
        requires
            old(self).wf(),
        ensures
            *final(self) == (Ch2 {
                duty_cycle: if old(self).enabled {
                    DutyCycle::clock_spec(old(self).duty_cycle, old(self).period)
                } else {
                    old(self).duty_cycle
                },
                ..*old(self)
            }),
            final(self).wf(),
    {
        if self.enabled {
            self.duty_cycle.clock(self.period);
        }
    }

    /// The channel's output sample scaled by 15; a silent channel
    /// contributes zero.
    pub open spec fn amplitude_spec(self) -> int {
        if self.dac_enabled && self.enabled {
            2 * (duty_wave(self.duty_cycle.pattern, self.duty_cycle.position as int)
                * self.envelope.volume) - self.envelope.volume
        } else {
            0
        }
    }

    pub fn amplitude(&self) -> (r: i16)
        requires
            self.wf(),
        ensures
            r == self.amplitude_spec(),
            -15 <= r <= 15,
    {
        if self.dac_enabled && self.enabled {
            let duty = self.duty_cycle.sample();
            let v = self.envelope.volume as i16;
            let level: i16 = if duty == 1 {
                v
            } else {
                0
            };
            2 * level - v
        } else {
            0
        }
    }
}

} // verus!
