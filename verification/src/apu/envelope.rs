//! The volume envelope shared by the pulse channels and the noise channel:
//! an initial volume, a direction and a pace, ticked on step 7 of the
//! `div-apu` sequencer.

use vstd::prelude::*;

verus! {

#[derive(Clone, Copy, Debug, PartialEq, Eq, Structural)]
pub struct Envelope {
    pub initial_volume: u8,
    pub direction: u8,
    pub pace: u8,
    pub volume: u8,
    pub timer: u8,
}

impl Envelope {
    pub open spec fn wf(self) -> bool {
        &&& self.initial_volume < 16
        &&& self.direction < 2
        &&& self.pace < 8
        &&& self.volume < 16
        &&& self.timer < 8
    }

    pub fn new() -> (r: Envelope)
        ensures
            r == (Envelope { initial_volume: 0u8, direction: 0u8, pace: 0u8, volume: 0u8, timer: 0u8 }),
            r.wf(),
    {
        Envelope { initial_volume: 0, direction: 0, pace: 0, volume: 0, timer: 0 }
    }

    /// A channel trigger reloads the working volume from the initial
    /// volume and the timer from the pace.
    pub fn trigger(&mut self)
        ensures
            *final(self) == (Envelope {
                volume: old(self).initial_volume,
                timer: old(self).pace,
                ..*old(self)
            }),
    {
        self.timer = self.pace;
        self.volume = self.initial_volume;
    }

    /// The envelope after one envelope tick: pace 0 disables it; otherwise
    /// the timer counts down and, on reaching zero, reloads from the pace
    /// while the volume steps up (direction 1) or down (direction 0),
    /// clamped to 0..15.
    pub open spec fn clock_spec(pre: Envelope) -> Envelope {
        if pre.pace == 0 {
            pre
        } else {
            let t = if pre.timer > 0 {
                (pre.timer - 1) as u8
            } else {
                0u8
            };
            if t == 0 {
                let v = if pre.direction == 1 {
                    if pre.volume < 0xf {
                        (pre.volume + 1) as u8
                    } else {
                        pre.volume
                    }
                } else {
                    if pre.volume > 0 {
                        (pre.volume - 1) as u8
                    } else {
                        pre.volume
                    }
                };
                Envelope { timer: pre.pace, volume: v, ..pre }
            } else {
                Envelope { timer: t, ..pre }
            }
        }
    }

    pub fn clock(&mut self)
        requires
            old(self).wf(),
        ensures
            *final(self) == Envelope::clock_spec(*old(self)),
            final(self).wf(),
    {
        if self.pace == 0 {
            return ;
        }
        if self.timer > 0 {
            self.timer = self.timer - 1;
        }
        if self.timer == 0 {
            self.timer = self.pace;
            if self.direction == 1 {
                if self.volume < 0xf {
                    self.volume = self.volume + 1;
                }
            } else {
                if self.volume > 0 {
                    self.volume = self.volume - 1;
                }
            }
        }
    }
}

} // verus!
