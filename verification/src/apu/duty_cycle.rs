//! The duty-cycle oscillator of the two pulse channels: a 2-bit pattern
//! code selecting one of four 8-step waveforms, and an 11-bit phase timer
//! that advances the step position when it runs past 0x7FF.

use vstd::prelude::*;

verus! {

/// One step of the four published duty waveforms: pattern 0 is low only at
/// step 7; pattern 1 is low at steps 0 and 7; pattern 2 is high at steps
/// 1 through 4; pattern 3 is high only at steps 0 and 7.
pub open spec fn duty_wave(pattern: u8, position: int) -> u8 {
    if pattern == 0 {
        if position == 7 {
            0
        } else {
            1
        }
    } else if pattern == 1 {
        if position == 0 || position == 7 {
            0
        } else {
            1
        }
    } else if pattern == 2 {
        if 1 <= position <= 4 {
            1
        } else {
            0
        }
    } else {
        if position == 0 || position == 7 {
            1
        } else {
            0
        }
    }
}

/// The oscillator state: the phase counter starts unset and is seeded with
/// the channel period on the first clock.
#[derive(Clone, Copy, Debug, PartialEq, Eq, Structural)]
pub struct DutyCycle {
    pub counter: Option<u16>,
    pub position: usize,
    pub pattern: u8,
}

impl DutyCycle {
    pub open spec fn wf(self) -> bool {
        &&& self.position < 8
        &&& self.pattern < 4
        &&& self.counter matches Some(c) ==> c <= 0x7ff
    }

    pub fn new() -> (r: DutyCycle)
        ensures
            r == (DutyCycle { counter: Option::<u16>::None, position: 0usize, pattern: 0u8 }),
            r.wf(),
    {
        DutyCycle { counter: None, position: 0, pattern: 0 }
    }

    /// The oscillator's current 1-bit output.
    pub fn sample(&self) -> (r: u8)
        requires
            self.wf(),
        ensures
            r == duty_wave(self.pattern, self.position as int),
    {
        match self.pattern {
            0 => if self.position == 7 {
                0
            } else {
                1
            },
            1 => if self.position == 0 || self.position == 7 {
                0
            } else {
                1
            },
            2 => if 1 <= self.position && self.position <= 4 {
                1
            } else {
                0
            },
            _ => if self.position == 0 || self.position == 7 {
                1
            } else {
                0
            },
        }
    }

    /// The oscillator one m-cycle later: the phase counter climbs from the
    /// channel period toward 0x7FF; running past it reloads the counter
    /// and advances the waveform position one step.
    pub open spec fn clock_spec(pre: DutyCycle, period: u16) -> DutyCycle {
        match pre.counter {
            Some(c) => {
                if c + 1 > 0x7ff {
                    DutyCycle {
                        counter: Some(period),
                        position: ((pre.position + 1) % 8) as usize,
                        ..pre
                    }
                } else {
                    DutyCycle { counter: Some((c + 1) as u16), ..pre }
                }
            },
            None => DutyCycle { counter: Some(period), ..pre },
        }
    }

    pub fn clock(&mut self, period: u16)
        requires
            old(self).wf(),
            period <= 0x7ff,
        ensures
            *final(self) == DutyCycle::clock_spec(*old(self), period),
            final(self).wf(),
    {
        match self.counter {
            Some(c) => {
                if c + 1 > 0x7ff {
                    self.counter = Some(period);
                    self.position = (self.position + 1) % 8;
                } else {
                    self.counter = Some(c + 1);
                }
            },
            None => {
                self.counter = Some(period);
            },
        }
    }
}

} // verus!
