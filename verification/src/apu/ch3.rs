//! The wave channel: 32 four-bit samples in 16 bytes of wave RAM, an
//! 11-bit period timer, a 2-bit output level, and an 8-bit length counter,
//! behind NR30-NR34 and FF30-FF3F.

use vstd::prelude::*;
use crate::apu::length::Length;

verus! {

pub struct Ch3 {
    pub dac_enabled: bool,
    /// The 2-bit output level of NR32: 0 mutes, 1 plays, 2 halves, 3
    /// quarters.
    pub initial_volume: u8,
    /// The 11-bit period shared by NR33 and NR34.
    pub period: u16,
    pub enabled: bool,
    /// The output level latched by the last trigger.
    pub volume: u8,
    pub length: Length,
    /// Which of the 32 nibbles plays next.
    pub sample_index: usize,
    /// The 16 bytes of wave RAM (FF30-FF3F).
    pub wave: Vec<u8>,
    pub timer: u16,
}

impl Ch3 {
    pub open spec fn wf(self) -> bool {
        &&& self.period <= 0x7ff
        &&& self.initial_volume < 4
        &&& self.volume < 4
        &&& self.sample_index < 32
        &&& self.wave@.len() == 16
        &&& self.timer <= 0x800
    }

    pub fn new() -> (r: Ch3)
        ensures
            r.wf(),
            r.enabled == false && r.dac_enabled == false,
            r.length == (Length { length: 0u16, enable: false }),
            r.period == 0 && r.volume == 0 && r.initial_volume == 0 && r.sample_index == 0,
            forall|i: int| 0 <= i < 16 ==> (#[trigger] r.wave@[i]) == 0,
    {
        let mut wave: Vec<u8> = Vec::new();
        let mut i: usize = 0;
        while i < 16
            invariant
                i <= 16,
                wave@.len() == i,
                forall|j: int| 0 <= j < i ==> (#[trigger] wave@[j]) == 0,
            decreases 16 - i,
        {
            wave.push(0);
            i = i + 1;
        }
        Ch3 {
            dac_enabled: false,
            initial_volume: 0,
            period: 0,
            enabled: false,
            volume: 0,
            length: Length::new(),
            sample_index: 0,
            wave,
            timer: 0,
        }
    }

    /// An APU power-off clears the registers but keeps the length count
    /// and the wave RAM.
    pub fn clear(&mut self)
        requires
            old(self).wf(),
        ensures
            final(self).wf(),
            *final(self) == (Ch3 {
                dac_enabled: false,
                initial_volume: 0u8,
                period: 0u16,
                enabled: false,
                volume: 0u8,
                length: Length { enable: false, ..old(self).length },
                sample_index: 0usize,
                timer: 0u16,
                wave: old(self).wave,
            }),
    {
        self.dac_enabled = false;
        self.initial_volume = 0;
        self.period = 0;
        self.enabled = false;
        self.volume = 0;
        self.length.clear();
        self.sample_index = 0;
        self.timer = 0;
    }

    /// What each register reads back as, unused bits high; wave RAM reads
    /// back as written.
    pub open spec fn read_spec(self, addr: u16) -> u8 {
        if addr == 0xff1a {
            if self.dac_enabled {
                0xff
            } else {
                0x7f
            }
        } else if addr == 0xff1c {
            (0x9f + self.initial_volume * 32) as u8
        } else if addr == 0xff1b || addr == 0xff1d {
            0xff
        } else if addr == 0xff1e {
            if self.length.enable {
                0xff
            } else {
                0xbf
            }
        } else {
            self.wave@[addr - 0xff30]
        }
    }

    pub fn read(&self, addr: u16) -> (r: u8)
        requires
            self.wf(),
            0xff1a <= addr <= 0xff1e || 0xff30 <= addr <= 0xff3f,
        ensures
            r == self.read_spec(addr),
    {
        match addr {
            0xff1a => if self.dac_enabled {
                0xff
            } else {
                0x7f
            },
            0xff1c => 0x9f + self.initial_volume * 32,
            0xff1b | 0xff1d => 0xff,
            0xff1e => if self.length.enable {
                0xff
            } else {
                0xbf
            },
            _ => self.wave[(addr - 0xff30) as usize],
        }
    }

    /// The exact effect of a register or wave-RAM write, as `write`'s
    /// contract states it.
    pub open spec fn write_post(pre: Ch3, post: Ch3, div_apu: u8, addr: u16, val: u8) -> bool {
        &&& addr == 0xff1a ==> post == (Ch3 {
                dac_enabled: val >= 0x80,
                enabled: pre.enabled && val >= 0x80,
                ..pre
            })
        &&& addr == 0xff1b ==> post == (Ch3 {
                length: Length { length: (256 - val) as u16, ..pre.length },
                ..pre
            })
        &&& addr == 0xff1c ==> post == (Ch3 {
                initial_volume: (val / 32 % 4) as u8,
                ..pre
            })
        &&& addr == 0xff1d ==> post == (Ch3 {
                period: (pre.period / 256 * 256 + val) as u16,
                ..pre
            })
        &&& addr == 0xff1e ==> {
                let period = ((val % 8) * 256 + pre.period % 256) as u16;
                let (length, expired) = Length::write_nrx4_result(
                    pre.length,
                    val / 64 % 2 == 1,
                    div_apu,
                );
                if val >= 0x80 {
                    post == (Ch3 {
                        period,
                        length: Length::trigger_spec(length, 256, div_apu),
                        volume: pre.initial_volume,
                        enabled: pre.dac_enabled,
                        timer: (2048 - period) as u16,
                        sample_index: 0usize,
                        ..pre
                    })
                } else {
                    post == (Ch3 {
                        period,
                        length,
                        enabled: pre.enabled && !expired,
                        ..pre
                    })
                }
            }
        &&& 0xff30 <= addr <= 0xff3f ==> {
                &&& post.wave@ == pre.wave@.update(addr - 0xff30, val)
                &&& post == (Ch3 { wave: post.wave, ..pre })
            }
    }

    /// How a write to each register changes the channel.  The length load
    /// (NR31) lands even while the APU is off; wave RAM always accepts
    /// writes.
    pub fn write(&mut self, div_apu: u8, addr: u16, val: u8)
        requires
            old(self).wf(),
            0xff1a <= addr <= 0xff1e || 0xff30 <= addr <= 0xff3f,
        ensures
            final(self).wf(),
            Ch3::write_post(*old(self), *final(self), div_apu, addr, val),
    {
        match addr {
            0xff1a => {
                self.dac_enabled = val >= 0x80;
                if !self.dac_enabled {
                    self.enabled = false;
                }
            },
            0xff1b => {
                self.length.length = 256 - val as u16;
            },
            0xff1c => {
                self.initial_volume = val / 32 % 4;
            },
            0xff1d => {
                self.period = self.period / 256 * 256 + val as u16;
            },
            0xff1e => {
                self.period = (val % 8) as u16 * 256 + self.period % 256;
                let length_enable = val / 64 % 2 == 1;
                if self.length.write_nrx4(length_enable, div_apu) {
                    self.enabled = false;
                }
                if val >= 0x80 {
                    self.length.trigger(256, div_apu);
                    self.volume = self.initial_volume;
                    self.enabled = self.dac_enabled;
                    self.timer = 2048 - self.period;
                    self.sample_index = 0;
                }
            },
            _ => {
                self.wave.set((addr - 0xff30) as usize, val);
            },
        }
    }


    /// The channel after one `div-apu` step: the length counter ticks on
    /// even steps and can silence the channel.
    pub open spec fn clock_spec(pre: Ch3, div_apu: u8) -> Ch3 {
        let (length, expired) = if div_apu % 2 == 0 {
            Length::clock_result(pre.length)
        } else {
            (pre.length, false)
        };
        Ch3 {
            length,
            enabled: if expired {
                false
            } else {
                pre.enabled
            },
            ..pre
        }
    }

    /// One `div-apu` step: only the length counter listens, on even steps.
    pub fn clock(&mut self, div_apu: u8)
        requires
            old(self).wf(),
        ensures
            final(self).wf(),
            *final(self) == Ch3::clock_spec(*old(self), div_apu),
    {
        if div_apu % 2 == 0 {
            if self.length.clock() {
                self.enabled = false;
            }
        }
    }

    /// One m-cycle: while the channel runs, the period timer climbs toward
    /// 0x7FF; running past it reloads the timer and steps to the next of
    /// the 32 wave nibbles.
    pub fn clock_fast(&mut self)
        requires
            old(self).wf(),
        ensures
            final(self).wf(),
            !old(self).enabled ==> *final(self) == *old(self),
            old(self).enabled && old(self).timer + 1 > 0x7ff ==> *final(self) == (Ch3 {
                timer: old(self).period,
                sample_index: ((old(self).sample_index + 1) % 32) as usize,
                ..*old(self)
            }),
            old(self).enabled && old(self).timer + 1 <= 0x7ff ==> *final(self) == (Ch3 {
                timer: (old(self).timer + 1) as u16,
                ..*old(self)
            }),
    {
        if self.enabled {
            self.timer = self.timer + 1;
            if self.timer > 0x7ff {
                self.sample_index = (self.sample_index + 1) % 32;
                self.timer = self.period;
            }
        }
    }

    /// The 4-bit nibble the channel is currently playing: even indices
    /// take the high nibble of their byte, odd ones the low nibble.
    pub open spec fn nibble_spec(self) -> int {
        let b = self.wave@[self.sample_index as int / 2];
        if self.sample_index % 2 == 0 {
            b as int / 16
        } else {
            b as int % 16
        }
    }

    /// The output level's right-shift: level 0 mutes (shift 4), 1 plays in
    /// full, 2 halves, 3 quarters.
    pub open spec fn volume_shift(self) -> int {
        if self.volume == 0 {
            4
        } else if self.volume == 1 {
            0
        } else if self.volume == 2 {
            1
        } else {
            2
        }
    }

    /// The channel's output sample scaled by 15; a silent channel
    /// contributes zero.
    pub open spec fn amplitude_spec(self) -> int {
        if self.dac_enabled && self.enabled {
            2 * (self.nibble_spec() / pow2_int(self.volume_shift())) - 15
        } else {
            0
        }
    }

    pub fn amplitude(&self) -> (r: i16)
        requires
            self.wf(),
        ensures
            r == self.amplitude_spec(),
            -15 <= r <= 15,
    {
        if self.dac_enabled && self.enabled {
            let b = self.wave[self.sample_index / 2];
            let nibble: u8 = if self.sample_index % 2 == 0 {
                b / 16
            } else {
                b % 16
            };
            let scaled: u8 = match self.volume {
                0 => nibble / 16,
                1 => nibble,
                2 => nibble / 2,
                _ => nibble / 4,
            };
            2 * (scaled as i16) - 15
        } else {
            0
        }
    }
}

/// Two to the `n`-th, for the small shifts the wave level uses.
pub open spec fn pow2_int(n: int) -> int {
    if n == 0 {
        1
    } else if n == 1 {
        2
    } else if n == 2 {
        4
    } else {
        16
    }
}

} // verus!
