use vstd::prelude::*;

verus! {

/// A timer-driven sequencer: when its timer runs out it reloads, steps its
/// sequence, and outputs the sequence's low bit.
#[derive(Debug, Clone, Copy, PartialEq, Eq, Structural)]
pub struct APUSequencer {
    pub sequence: u32,
    pub timer: u16,
    pub reload: u16,
    pub output: u8,
}

impl APUSequencer {
    pub fn new() -> (r: APUSequencer)
        ensures
            r == (APUSequencer { sequence: 0, timer: 0, reload: 0, output: 0 }),
    {
        APUSequencer { sequence: 0, timer: 0, reload: 0, output: 0 }
    }

    /// Clocks the sequencer when `enable` is set: the timer counts down, and
    /// when it passes zero it reloads to `reload + 1` and `step` moves the
    /// sequence on. Returns the output bit.
    pub fn tick<F: FnOnce(u32) -> u32>(&mut self, enable: bool, step: F) -> (r: u8)
        requires
            enable && old(self).timer == 0 ==> step.requires((old(self).sequence,)) && old(
                self,
            ).reload < 0xffff,
        ensures
            r == final(self).output,
            final(self).reload == old(self).reload,
            !enable ==> *final(self) == *old(self),
            enable && old(self).timer != 0 ==> *final(self) == (APUSequencer {
                timer: (old(self).timer - 1) as u16,
                ..*old(self)
            }),
            enable && old(self).timer == 0 ==> {
                &&& final(self).timer == old(self).reload + 1
                &&& step.ensures((old(self).sequence,), final(self).sequence)
                &&& final(self).output == (final(self).sequence & 1) as u8
            },
    {
        if enable {
            if self.timer == 0 {
                self.timer = self.reload + 1;
                self.sequence = step(self.sequence);
                self.output = (self.sequence & 1) as u8;
            } else {
                self.timer = self.timer - 1;
            }
        }
        self.output
    }
}

} // verus!
