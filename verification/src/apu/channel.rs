use vstd::prelude::*;

use super::timing::APUTimerInstant;

verus! {

/// A sound channel as the frame sequencer drives it.
pub trait APUChannel: Sized {
    /// Whether the channel is sounding.
    spec fn playing_spec(&self) -> bool;

    /// The channel after the frame sequencer's clocks in a span of cycles.
    spec fn tick_spec(&self, now: APUTimerInstant) -> Self;

    fn playing(&self) -> (r: bool)
        ensures
            r == self.playing_spec(),
    ;

    fn tick(&mut self, now: &APUTimerInstant)
        ensures
            *final(self) == old(self).tick_spec(*now),
    ;
}

} // verus!
