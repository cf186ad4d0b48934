use vstd::prelude::*;

use super::channel_state::{APUOscillatorCommand, APUSynthCommand};
use super::oscillators::{APUNoiseOscillator, APUPulseOscillator, APUTriangleOscillator};
use crate::audio::synth::SynthCommand;

verus! {

/// The APU's four sound channels, as the synthesizer names them.
#[derive(Debug, Clone, Copy, PartialEq, Eq, Hash, Structural)]
pub enum APUSynthChannel {
    Pulse1,
    Pulse2,
    Triangle,
    Noise,
}

/// The synthesizer's oscillators, one per channel.
#[derive(Debug, Clone, Copy)]
pub struct APUSynth {
    pub pulse1: APUPulseOscillator,
    pub pulse2: APUPulseOscillator,
    pub triangle: APUTriangleOscillator,
    pub noise: APUNoiseOscillator,
}

impl APUSynth {
    /// Both pulse oscillators' sweeps hold a shift count a register can hold.
    pub open spec fn wf(self) -> bool {
        self.pulse1.wf() && self.pulse2.wf()
    }

    /// Silent oscillators; the first pulse channel's sweep negates in ones'
    /// complement, the second's in two's complement.
    pub fn new() -> (r: APUSynth)
        ensures
            r.wf(),
            r.pulse1.is_initial(true),
            r.pulse2.is_initial(false),
            r.triangle.is_initial(),
            r.noise.is_initial(),
    {
        APUSynth {
            pulse1: APUPulseOscillator::new(true),
            pulse2: APUPulseOscillator::new(false),
            triangle: APUTriangleOscillator::new(),
            noise: APUNoiseOscillator::new(),
        }
    }

    /// Hands a command to the oscillator of the channel it names. A command of
    /// another kind than that oscillator takes is dropped.
    pub fn handle_command(&mut self, command: APUSynthCommand)
        requires
            old(self).wf(),
        ensures
            final(self).wf(),
            match command {
                SynthCommand::ChannelCommand(channel, payload, _) => match (channel, payload) {
                    (APUSynthChannel::Pulse1, APUOscillatorCommand::Pulse(c)) => {
                        &&& old(self).pulse1.handled(c, final(self).pulse1)
                        &&& final(self).pulse2 == old(self).pulse2
                        &&& final(self).triangle == old(self).triangle
                        &&& final(self).noise == old(self).noise
                    },
                    (APUSynthChannel::Pulse2, APUOscillatorCommand::Pulse(c)) => {
                        &&& old(self).pulse2.handled(c, final(self).pulse2)
                        &&& final(self).pulse1 == old(self).pulse1
                        &&& final(self).triangle == old(self).triangle
                        &&& final(self).noise == old(self).noise
                    },
                    (APUSynthChannel::Triangle, APUOscillatorCommand::Triangle(c)) => {
                        &&& old(self).triangle.handled(c, final(self).triangle)
                        &&& final(self).pulse1 == old(self).pulse1
                        &&& final(self).pulse2 == old(self).pulse2
                        &&& final(self).noise == old(self).noise
                    },
                    (APUSynthChannel::Noise, APUOscillatorCommand::Noise(c)) => {
                        &&& old(self).noise.handled(c, final(self).noise)
                        &&& final(self).pulse1 == old(self).pulse1
                        &&& final(self).pulse2 == old(self).pulse2
                        &&& final(self).triangle == old(self).triangle
                    },
                    _ => *final(self) == *old(self),
                },
            },
    {
        match command {
            SynthCommand::ChannelCommand(channel, payload, _) => match (channel, payload) {
                (APUSynthChannel::Pulse1, APUOscillatorCommand::Pulse(c)) => {
                    self.pulse1.handle_command(c);
                },
                (APUSynthChannel::Pulse2, APUOscillatorCommand::Pulse(c)) => {
                    self.pulse2.handle_command(c);
                },
                (APUSynthChannel::Triangle, APUOscillatorCommand::Triangle(c)) => {
                    self.triangle.handle_command(c);
                },
                (APUSynthChannel::Noise, APUOscillatorCommand::Noise(c)) => {
                    self.noise.handle_command(c);
                },
                _ => {},
            },
        }
    }
}

} // verus!
