//! The digital side of the audio unit.
//!
//! Four channels share a 3-bit `div-apu` sequencer advanced on the falling
//! edge of bit 12 of the system counter.  Everything up to each channel's
//! digital output and the register file is modelled here; turning those
//! digits into analogue samples is the host's business.

pub mod ch1;
pub mod ch2;
pub mod ch3;
pub mod ch4;
pub mod duty_cycle;
pub mod envelope;
pub mod length;
pub mod sweep;

use vstd::prelude::*;
use crate::apu::ch1::Ch1;
use crate::apu::ch2::Ch2;
use crate::apu::ch3::Ch3;
use crate::apu::ch4::Ch4;

verus! {

/// The audio unit: the four channels, the master volume and panning
/// registers, the power latch, and the `div-apu` sequencer with its
/// one-tick-old copy of the system counter for edge detection.
pub struct Apu {
    /// Master volume and VIN panning (FF24).
    pub nr50: u8,
    /// Sound panning (FF25).
    pub nr51: u8,
    pub ch1: Ch1,
    pub ch2: Ch2,
    pub ch3: Ch3,
    pub ch4: Ch4,
    /// The 3-bit sequencer stepped at about 512 Hz.
    pub div_apu: u8,
    /// The power latch: bit 7 of NR52.
    pub enabled: bool,
    /// The system counter as of the previous tick, for edge detection.
    pub sys_old: u16,
}

/// Whether a register accepts writes while the unit is powered off: NR52
/// itself, the four length loads, and wave RAM.
pub open spec fn writable_off(addr: u16) -> bool {
    addr == 0xff11 || addr == 0xff16 || addr == 0xff1b || addr == 0xff20 || addr == 0xff26 || (
    0xff30 <= addr <= 0xff3f)
}

/// The APU register addresses: NR10-NR52 and wave RAM.
pub open spec fn is_apu_addr(addr: u16) -> bool {
    (0xff10 <= addr <= 0xff14) || (0xff16 <= addr <= 0xff1e) || (0xff20 <= addr <= 0xff26) || (
    0xff30 <= addr <= 0xff3f)
}

impl Apu {
    pub open spec fn wf(self) -> bool {
        &&& self.ch1.wf()
        &&& self.ch2.wf()
        &&& self.ch3.wf()
        &&& self.ch4.wf()
        &&& self.div_apu < 8
    }

    pub fn new() -> (r: Apu)
        ensures
            r.wf(),
            r.nr50 == 0 && r.nr51 == 0 && !r.enabled && r.div_apu == 0 && r.sys_old == 0,
            r.ch1 == Ch1::cleared(crate::apu::length::Length { length: 0, enable: false }),
            r.ch2 == Ch2::cleared(crate::apu::length::Length { length: 0, enable: false }),
            r.ch4 == Ch4::cleared(crate::apu::length::Length { length: 0, enable: false }),
            !r.ch3.enabled && !r.ch3.dac_enabled && r.ch3.wave@.len() == 16,
    {
        Apu {
            nr50: 0,
            nr51: 0,
            ch1: Ch1::new(),
            ch2: Ch2::new(),
            ch3: Ch3::new(),
            ch4: Ch4::new(),
            div_apu: 0,
            enabled: false,
            sys_old: 0,
        }
    }

    /// What each register reads back as.  NR52 reads the power bit, high
    /// unused bits, and the four channel-enable flags.
    pub open spec fn read_spec(self, addr: u16) -> u8 {
        if 0xff10 <= addr <= 0xff14 {
            self.ch1.read_spec(addr)
        } else if 0xff16 <= addr <= 0xff19 {
            self.ch2.read_spec(addr)
        } else if 0xff1a <= addr <= 0xff1e {
            self.ch3.read_spec(addr)
        } else if 0xff20 <= addr <= 0xff23 {
            self.ch4.read_spec(addr)
        } else if addr == 0xff24 {
            self.nr50
        } else if addr == 0xff25 {
            self.nr51
        } else if addr == 0xff26 {
            ((if self.enabled {
                0x80int
            } else {
                0int
            }) + 0x70 + (if self.ch1.enabled {
                1int
            } else {
                0int
            }) + (if self.ch2.enabled {
                2int
            } else {
                0int
            }) + (if self.ch3.enabled {
                4int
            } else {
                0int
            }) + (if self.ch4.enabled {
                8int
            } else {
                0int
            })) as u8
        } else {
            self.ch3.read_spec(addr)
        }
    }

    pub fn read(&self, addr: u16) -> (r: u8)
        requires
            self.wf(),
            is_apu_addr(addr),
        ensures
            r == self.read_spec(addr),
    {
        if 0xff10 <= addr && addr <= 0xff14 {
            self.ch1.read(addr)
        } else if 0xff16 <= addr && addr <= 0xff19 {
            self.ch2.read(addr)
        } else if 0xff1a <= addr && addr <= 0xff1e {
            self.ch3.read(addr)
        } else if 0xff20 <= addr && addr <= 0xff23 {
            self.ch4.read(addr)
        } else if addr == 0xff24 {
            self.nr50
        } else if addr == 0xff25 {
            self.nr51
        } else if addr == 0xff26 {
            let mut r: u8 = 0x70;
            if self.enabled {
                r = r + 0x80;
            }
            if self.ch1.enabled {
                r = r + 1;
            }
            if self.ch2.enabled {
                r = r + 2;
            }
            if self.ch3.enabled {
                r = r + 4;
            }
            if self.ch4.enabled {
                r = r + 8;
            }
            r
        } else {
            self.ch3.read(addr)
        }
    }

    /// Powering off clears every channel and the mixer registers; the
    /// length counters and wave RAM stay.
    fn clear_regs(&mut self)
        requires
            old(self).wf(),
        ensures
            final(self).wf(),
            final(self).ch1 == Ch1::cleared(old(self).ch1.length),
            final(self).ch2 == Ch2::cleared(old(self).ch2.length),
            final(self).ch4 == Ch4::cleared(old(self).ch4.length),
            final(self).ch3 == (Ch3 {
                dac_enabled: false,
                initial_volume: 0u8,
                period: 0u16,
                enabled: false,
                volume: 0u8,
                length: crate::apu::length::Length { enable: false, ..old(self).ch3.length },
                sample_index: 0usize,
                timer: 0u16,
                wave: old(self).ch3.wave,
            }),
            final(self).nr50 == 0 && final(self).nr51 == 0,
            final(self).div_apu == old(self).div_apu,
            final(self).enabled == old(self).enabled,
            final(self).sys_old == old(self).sys_old,
    {
        self.ch1.clear();
        self.ch2.clear();
        self.ch3.clear();
        self.ch4.clear();
        self.nr50 = 0;
        self.nr51 = 0;
    }

    /// The exact effect of a register write, as `write`'s contract
    /// states it.  While the power latch is off, only NR52, the length
    /// loads and wave RAM land; each channel range follows that
    /// channel's own write relation; an NR52 power-off clears every
    /// channel and the mixer registers while preserving the four length
    /// counters and wave RAM, and the off-to-on transition resets the
    /// sequencer.
    #[verifier::opaque]
    pub open spec fn write_post(pre: Apu, post: Apu, addr: u16, val: u8) -> bool {
        if !pre.enabled && !writable_off(addr) {
            post == pre
        } else if 0xff10 <= addr <= 0xff14 {
            post == (Apu {
                ch1: Ch1::write_spec(pre.ch1, pre.div_apu, addr, val, pre.enabled),
                ..pre
            })
        } else if 0xff16 <= addr <= 0xff19 {
            post == (Apu {
                ch2: Ch2::write_spec(pre.ch2, pre.div_apu, addr, val, pre.enabled),
                ..pre
            })
        } else if 0xff1a <= addr <= 0xff1e || 0xff30 <= addr <= 0xff3f {
            &&& Ch3::write_post(pre.ch3, post.ch3, pre.div_apu, addr, val)
            &&& post == (Apu { ch3: post.ch3, ..pre })
        } else if 0xff20 <= addr <= 0xff23 {
            &&& Ch4::write_post(pre.ch4, post.ch4, pre.div_apu, addr, val)
            &&& post == (Apu { ch4: post.ch4, ..pre })
        } else if addr == 0xff24 {
            post == (Apu { nr50: val, ..pre })
        } else if addr == 0xff25 {
            post == (Apu { nr51: val, ..pre })
        } else if addr == 0xff26 {
            if val >= 0x80 {
                post == (Apu {
                    enabled: true,
                    div_apu: if pre.enabled {
                        pre.div_apu
                    } else {
                        0u8
                    },
                    ..pre
                })
            } else {
                &&& post.ch1 == Ch1::cleared(pre.ch1.length)
                &&& post.ch2 == Ch2::cleared(pre.ch2.length)
                &&& post.ch4 == Ch4::cleared(pre.ch4.length)
                &&& post.ch3.wave == pre.ch3.wave
                &&& post.ch3 == (Ch3 {
                    dac_enabled: false,
                    initial_volume: 0u8,
                    period: 0u16,
                    enabled: false,
                    volume: 0u8,
                    length: crate::apu::length::Length { enable: false, ..pre.ch3.length },
                    sample_index: 0usize,
                    timer: 0u16,
                    wave: post.ch3.wave,
                })
                &&& post == (Apu {
                    ch1: post.ch1,
                    ch2: post.ch2,
                    ch3: post.ch3,
                    ch4: post.ch4,
                    nr50: 0u8,
                    nr51: 0u8,
                    enabled: false,
                    ..pre
                })
            }
        } else {
            post == pre
        }
    }

    /// A register write.  While the power latch is off, only NR52, the
    /// length loads and wave RAM land; anything else is discarded.  An
    /// NR52 write sets the power latch from bit 7: powering off clears
    /// the channels and mixer registers but preserves the length counters
    /// and wave RAM; the off-to-on transition resets the sequencer.
    pub fn write(&mut self, addr: u16, val: u8)
        requires
            old(self).wf(),
            is_apu_addr(addr),
        ensures
            final(self).wf(),
            Apu::write_post(*old(self), *final(self), addr, val),
    {
        proof {
            reveal(Apu::write_post);
        }
        if !self.enabled && !(addr == 0xff11 || addr == 0xff16 || addr == 0xff1b || addr == 0xff20
            || addr == 0xff26 || (0xff30 <= addr && addr <= 0xff3f)) {
            return ;
        }
        if 0xff10 <= addr && addr <= 0xff14 {
            let on = self.enabled;
            self.ch1.write(self.div_apu, addr, val, on);
        } else if 0xff16 <= addr && addr <= 0xff19 {
            let on = self.enabled;
            self.ch2.write(self.div_apu, addr, val, on);
        } else if (0xff1a <= addr && addr <= 0xff1e) || (0xff30 <= addr && addr <= 0xff3f) {
            self.ch3.write(self.div_apu, addr, val);
        } else if 0xff20 <= addr && addr <= 0xff23 {
            self.ch4.write(self.div_apu, addr, val);
        } else if addr == 0xff24 {
            self.nr50 = val;
        } else if addr == 0xff25 {
            self.nr51 = val;
        } else {
            let set_enabled = val >= 0x80;
            if set_enabled && !self.enabled {
                self.div_apu = 0;
            }
            self.enabled = set_enabled;
            if !set_enabled {
                self.clear_regs();
            }
        }
    }

    /// The exact effect of one master tick on the audio unit, as
    /// `clock`'s contract states it: the one-tick-old counter copy
    /// updates; on m-cycle boundaries every channel's oscillator runs its
    /// fast path; on the falling edge of counter bit 12, power
    /// permitting, the sequencer fires each channel's length, envelope
    /// and sweep events and steps.
    pub open spec fn clock_post(pre: Apu, post: Apu, sys: u16) -> bool {
        let fast = sys % 4 == 0;
        let edge = pre.sys_old / 4096 % 2 == 1 && sys / 4096 % 2 == 0;
        let slow = edge && pre.enabled;
        let c1 = if fast {
            fast_spec_ch1(pre.ch1)
        } else {
            pre.ch1
        };
        let c2 = if fast {
            fast_spec_ch2(pre.ch2)
        } else {
            pre.ch2
        };
        let c3 = if fast {
            fast_spec_ch3(pre.ch3)
        } else {
            pre.ch3
        };
        let c4 = if fast {
            fast_spec_ch4(pre.ch4)
        } else {
            pre.ch4
        };
        &&& post.sys_old == sys
        &&& post.nr50 == pre.nr50 && post.nr51 == pre.nr51
        &&& post.enabled == pre.enabled
        &&& post.ch1 == (if slow {
            Ch1::clock_spec(c1, pre.div_apu)
        } else {
            c1
        })
        &&& post.ch2 == (if slow {
            Ch2::clock_spec(c2, pre.div_apu)
        } else {
            c2
        })
        &&& post.ch3 == (if slow {
            Ch3::clock_spec(c3, pre.div_apu)
        } else {
            c3
        })
        &&& post.ch4 == (if slow {
            Ch4::clock_spec(c4, pre.div_apu)
        } else {
            c4
        })
        &&& post.div_apu == (if slow {
            ((pre.div_apu + 1) % 8) as u8
        } else {
            pre.div_apu
        })
    }

    /// One master tick.  On m-cycle boundaries the channels' oscillators
    /// advance; on the falling edge of bit 12 of the system counter the
    /// sequencer fires the length, sweep and envelope events and steps,
    /// power permitting.
    pub fn clock(&mut self, sys: u16)
        requires
            old(self).wf(),
        ensures
            final(self).wf(),
            Apu::clock_post(*old(self), *final(self), sys),
    {
        if sys % 4 == 0 {
            self.ch1.clock_fast();
            self.ch2.clock_fast();
            self.ch3.clock_fast();
            self.ch4.clock_fast();
        }
        let old_set = self.sys_old / 4096 % 2 == 1;
        let cur_unset = sys / 4096 % 2 == 0;
        self.sys_old = sys;
        if !(old_set && cur_unset) {
            return ;
        }
        if !self.enabled {
            return ;
        }
        let step = self.div_apu;
        self.ch1.clock(step);
        self.ch2.clock(step);
        self.ch3.clock(step);
        self.ch4.clock(step);
        self.div_apu = (self.div_apu + 1) % 8;
    }

    /// The stereo sample pair, scaled by 120: each side sums the channels
    /// NR51 selects for it, each channel contributing its output scaled by
    /// 15, and multiplies by the side's volume step (the 3-bit NR50 field
    /// plus one).  The host divides by 120 to recover the [-1, 1] sample.
    pub open spec fn mix_spec(self) -> (int, int) {
        let a1 = self.ch1.amplitude_spec();
        let a2 = self.ch2.amplitude_spec();
        let a3 = self.ch3.amplitude_spec();
        let a4 = self.ch4.amplitude_spec();
        let left = (if self.nr51 / 128 % 2 == 1 {
            a4
        } else {
            0
        }) + (if self.nr51 / 64 % 2 == 1 {
            a3
        } else {
            0
        }) + (if self.nr51 / 32 % 2 == 1 {
            a2
        } else {
            0
        }) + (if self.nr51 / 16 % 2 == 1 {
            a1
        } else {
            0
        });
        let right = (if self.nr51 / 8 % 2 == 1 {
            a4
        } else {
            0
        }) + (if self.nr51 / 4 % 2 == 1 {
            a3
        } else {
            0
        }) + (if self.nr51 / 2 % 2 == 1 {
            a2
        } else {
            0
        }) + (if self.nr51 % 2 == 1 {
            a1
        } else {
            0
        });
        (left * (self.nr50 / 16 % 8 + 1), right * (self.nr50 % 8 + 1))
    }

    /// Produces the current stereo sample pair, scaled by 120.
    #[verifier::rlimit(60)]
    pub fn sample(&self) -> (r: (i16, i16))
        requires
            self.wf(),
        ensures
            r.0 == self.mix_spec().0,
            r.1 == self.mix_spec().1,
            -480 <= r.0 <= 480,
            -480 <= r.1 <= 480,
    {
        let a1 = self.ch1.amplitude();
        let a2 = self.ch2.amplitude();
        let a3 = self.ch3.amplitude();
        let a4 = self.ch4.amplitude();
        let mut left: i16 = 0;
        let mut right: i16 = 0;
        if self.nr51 / 128 % 2 == 1 {
            left = left + a4;
        }
        if self.nr51 / 64 % 2 == 1 {
            left = left + a3;
        }
        if self.nr51 / 32 % 2 == 1 {
            left = left + a2;
        }
        if self.nr51 / 16 % 2 == 1 {
            left = left + a1;
        }
        if self.nr51 / 8 % 2 == 1 {
            right = right + a4;
        }
        if self.nr51 / 4 % 2 == 1 {
            right = right + a3;
        }
        if self.nr51 / 2 % 2 == 1 {
            right = right + a2;
        }
        if self.nr51 % 2 == 1 {
            right = right + a1;
        }
        let lv: i16 = (self.nr50 / 16 % 8) as i16 + 1;
        let rv: i16 = (self.nr50 % 8) as i16 + 1;
        proof {
            assert(-480 <= left * lv <= 480) by (nonlinear_arith)
                requires
                    -60 <= left <= 60,
                    1 <= lv <= 8,
            ;
            assert(-480 <= right * rv <= 480) by (nonlinear_arith)
                requires
                    -60 <= right <= 60,
                    1 <= rv <= 8,
            ;
        }
        (left * lv, right * rv)
    }
}

/// The fast-path step of each channel, as its own contract states it.
pub open spec fn fast_spec_ch1(c: Ch1) -> Ch1 {
    Ch1 {
        duty_cycle: if c.enabled {
            crate::apu::duty_cycle::DutyCycle::clock_spec(c.duty_cycle, c.period)
        } else {
            c.duty_cycle
        },
        ..c
    }
}

pub open spec fn fast_spec_ch2(c: Ch2) -> Ch2 {
    Ch2 {
        duty_cycle: if c.enabled {
            crate::apu::duty_cycle::DutyCycle::clock_spec(c.duty_cycle, c.period)
        } else {
            c.duty_cycle
        },
        ..c
    }
}


pub open spec fn fast_spec_ch3(c: Ch3) -> Ch3 {
    if !c.enabled {
        c
    } else if c.timer + 1 > 0x7ff {
        Ch3 { timer: c.period, sample_index: ((c.sample_index + 1) % 32) as usize, ..c }
    } else {
        Ch3 { timer: (c.timer + 1) as u16, ..c }
    }
}

pub open spec fn fast_spec_ch4(c: Ch4) -> Ch4 {
    if !c.enabled {
        c
    } else if c.timer > 1 {
        Ch4 { timer: (c.timer - 1) as usize, ..c }
    } else {
        Ch4 {
            timer: Ch4::reset_timer_value(c) as usize,
            lfsr: crate::apu::ch4::lfsr_next(c.lfsr, c.lfsr_width),
            ..c
        }
    }
}

} // verus!
