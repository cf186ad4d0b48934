use vstd::prelude::*;

verus! {

/// A volume envelope: a divider that, each quarter frame, steps a decay level
/// down from 15 (looping when asked), or a constant volume.
#[derive(Debug, Clone, Copy, PartialEq, Eq, Structural)]
pub struct APUEnvelope {
    pub start_flag: bool,
    pub loop_flag: bool,
    pub enabled: bool,
    pub divider: u16,
    pub decay: u16,
    pub volume: u16,
    pub output: u16,
}

impl APUEnvelope {
    /// The envelope after one quarter-frame clock. A start restarts the decay
    /// at 15; otherwise the divider counts down to zero, reloads from the volume
    /// and steps the decay down (or back to 15 when looping). The output is the
    /// decay level, or the volume when the envelope is off.
    pub open spec fn tick_spec(self) -> APUEnvelope {
        let e = if !self.start_flag {
            if self.divider == 0 {
                APUEnvelope {
                    divider: self.volume,
                    decay: if self.decay == 0 {
                        if self.loop_flag {
                            15
                        } else {
                            0
                        }
                    } else {
                        (self.decay - 1) as u16
                    },
                    ..self
                }
            } else {
                APUEnvelope { divider: (self.divider - 1) as u16, ..self }
            }
        } else {
            APUEnvelope { start_flag: false, decay: 15, divider: self.volume, ..self }
        };
        APUEnvelope {
            output: if e.enabled {
                e.decay
            } else {
                e.volume
            },
            ..e
        }
    }

    pub fn new() -> (r: APUEnvelope)
        ensures
            r == (APUEnvelope {
                start_flag: false,
                loop_flag: false,
                enabled: true,
                divider: 0,
                decay: 0,
                volume: 0,
                output: 0,
            }),
    {
        APUEnvelope {
            start_flag: false,
            loop_flag: false,
            enabled: true,
            divider: 0,
            decay: 0,
            volume: 0,
            output: 0,
        }
    }

    /// Clocks the envelope.
    pub fn tick(&mut self)
        ensures
            *final(self) == old(self).tick_spec(),
    {
        if !self.start_flag {
            if self.divider == 0 {
                self.divider = self.volume;
                if self.decay == 0 {
                    if self.loop_flag {
                        self.decay = 15;
                    }
                } else {
                    self.decay = self.decay - 1;
                }
            } else {
                self.divider = self.divider - 1;
            }
        } else {
            self.start_flag = false;
            self.decay = 15;
            self.divider = self.volume;
        }
        self.output = if self.enabled {
            self.decay
        } else {
            self.volume
        };
    }
}

} // verus!
