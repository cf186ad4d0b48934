use vstd::prelude::*;

use super::channel::APUChannel;
use super::pulse::{timer_after_write, write_timer_value};
use super::registers::{
    sequencer_mode_from, APUFrameCounterRegister, APUSequencerMode, APUTimerRegister,
    APUTriangleControlRegister,
};
use super::timing::APUTimerInstant;

verus! {

/// What the triangle channel tells its oscillator.
#[derive(Debug, Clone, Copy, PartialEq, Eq, Structural)]
pub enum APUTriangleOscillatorCommand {
    NoOp,
    WriteControl(APUTriangleControlRegister),
    WriteTimerRegister(APUTimerRegister),
    SetEnabled(bool),
    LoadLengthCounterByIndex(u8),
    SetAPUSequencerMode(APUSequencerMode),
}

/// The triangle channel's registers.
#[derive(Debug, Clone, Copy, PartialEq, Eq, Structural)]
pub struct APUTriangleChannel {
    pub control: APUTriangleControlRegister,
    pub timer: APUTimerRegister,
    pub enabled: bool,
    pub length_counter_load_index: u8,
    pub sequencer_mode: APUSequencerMode,
}

impl APUTriangleChannel {
    pub open spec fn new_spec() -> APUTriangleChannel {
        APUTriangleChannel {
            control: APUTriangleControlRegister(0),
            timer: APUTimerRegister(0),
            enabled: false,
            length_counter_load_index: 0,
            sequencer_mode: APUSequencerMode::FourStep,
        }
    }

    /// The channel after a timer byte write; the high byte also sets the length
    /// load index.
    pub open spec fn write_timer_byte_spec(self, value: u8, high_byte: bool) -> APUTriangleChannel {
        APUTriangleChannel {
            timer: APUTimerRegister(timer_after_write(self.timer.0, value, high_byte)),
            length_counter_load_index: if high_byte {
                value >> 3u8
            } else {
                self.length_counter_load_index
            },
            ..self
        }
    }

    /// The state a capture reports.
    pub open spec fn captured(self) -> APUTriangleChannelState {
        APUTriangleChannelState {
            enabled: self.enabled,
            control: self.control,
            timer_register: self.timer,
            length_counter_load_index: self.length_counter_load_index,
            sequencer_mode: self.sequencer_mode,
        }
    }

    pub fn new() -> (r: APUTriangleChannel)
        ensures
            r == APUTriangleChannel::new_spec(),
    {
        APUTriangleChannel {
            control: APUTriangleControlRegister(0),
            timer: APUTimerRegister(0),
            enabled: false,
            length_counter_load_index: 0,
            sequencer_mode: APUSequencerMode::FourStep,
        }
    }

    pub fn write_control(&mut self, value: APUTriangleControlRegister)
        ensures
            *final(self) == (APUTriangleChannel { control: value, ..*old(self) }),
    {
        self.control = value;
    }

    pub fn write_timer_byte(&mut self, value: u8, high_byte: bool)
        ensures
            *final(self) == old(self).write_timer_byte_spec(value, high_byte),
    {
        self.timer = write_timer_value(self.timer, value, high_byte);
        if high_byte {
            self.length_counter_load_index = value >> 3u8;
        }
    }

    pub fn write_enabled(&mut self, enabled: bool)
        ensures
            *final(self) == (APUTriangleChannel { enabled, ..*old(self) }),
    {
        self.enabled = enabled;
    }

    pub fn write_frame_counter(&mut self, frame_counter: APUFrameCounterRegister)
        ensures
            *final(self) == (APUTriangleChannel {
                sequencer_mode: sequencer_mode_from(frame_counter.0 >> 7u8),
                ..*old(self)
            }),
    {
        self.sequencer_mode = frame_counter.sequencer_mode();
    }
}

impl APUChannel for APUTriangleChannel {
    /// The channel keeps no counters of its own here: it plays while enabled.
    open spec fn playing_spec(&self) -> bool {
        self.enabled
    }

    /// The frame sequencer's clocks are the oscillator's business.
    open spec fn tick_spec(&self, now: APUTimerInstant) -> APUTriangleChannel {
        *self
    }

    fn playing(&self) -> (r: bool) {
        self.enabled
    }

    fn tick(&mut self, now: &APUTimerInstant) {
    }
}

/// What the triangle channel's oscillator is told each time the APU reports.
#[derive(Debug, Clone, Copy, PartialEq, Eq, Structural)]
pub struct APUTriangleChannelState {
    pub enabled: bool,
    pub control: APUTriangleControlRegister,
    pub timer_register: APUTimerRegister,
    pub length_counter_load_index: u8,
    pub sequencer_mode: APUSequencerMode,
}

impl APUTriangleChannelState {
    /// The commands that bring an oscillator to this state, in a fixed order.
    pub open spec fn command_list(self) -> Seq<APUTriangleOscillatorCommand> {
        seq![
            APUTriangleOscillatorCommand::SetEnabled(self.enabled),
            APUTriangleOscillatorCommand::WriteControl(self.control),
            APUTriangleOscillatorCommand::WriteTimerRegister(self.timer_register),
            APUTriangleOscillatorCommand::LoadLengthCounterByIndex(self.length_counter_load_index),
            APUTriangleOscillatorCommand::SetAPUSequencerMode(self.sequencer_mode),
        ]
    }

    pub fn capture(channel: &APUTriangleChannel) -> (r: APUTriangleChannelState)
        ensures
            r == channel.captured(),
    {
        APUTriangleChannelState {
            enabled: channel.enabled,
            control: channel.control,
            timer_register: channel.timer,
            length_counter_load_index: channel.length_counter_load_index,
            sequencer_mode: channel.sequencer_mode,
        }
    }

    pub fn commands(&self) -> (r: Vec<APUTriangleOscillatorCommand>)
        ensures
            r@ == self.command_list(),
    {
        let mut v: Vec<APUTriangleOscillatorCommand> = Vec::new();
        v.push(APUTriangleOscillatorCommand::SetEnabled(self.enabled));
        v.push(APUTriangleOscillatorCommand::WriteControl(self.control));
        v.push(APUTriangleOscillatorCommand::WriteTimerRegister(self.timer_register));
        v.push(APUTriangleOscillatorCommand::LoadLengthCounterByIndex(self.length_counter_load_index));
        v.push(APUTriangleOscillatorCommand::SetAPUSequencerMode(self.sequencer_mode));
        assert(v@ =~= self.command_list());
        v
    }
}

} // verus!
