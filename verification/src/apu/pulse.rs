use vstd::prelude::*;

use super::channel::APUChannel;
use super::envelope::APUEnvelope;
use super::length_counter::{length_table, APULengthCounter};
use super::registers::{
    flag, sequencer_mode_from, APUFrameCounterRegister, APUPulseControlRegister,
    APUPulseSweepRegister, APUSequencerMode, APUTimerRegister,
};
use super::timing::APUTimerInstant;

verus! {

/// What a pulse channel tells its oscillator.
#[derive(Debug, Clone, Copy, PartialEq, Eq, Structural)]
pub enum APUPulseOscillatorCommand {
    NoOp,
    WriteControl(APUPulseControlRegister),
    WriteSweep(APUPulseSweepRegister),
    WriteTimerRegister(APUTimerRegister),
    SetEnabled(bool),
    LoadLengthCounterByIndex(u8),
    SetAPUSequencerMode(APUSequencerMode),
    FrameCounterSet,
}

/// A pulse channel's registers, with the envelope and length counter that the
/// status register reports on.
#[derive(Debug, Clone, Copy, PartialEq, Eq, Structural)]
pub struct APUPulseChannel {
    pub control: APUPulseControlRegister,
    pub sweep: APUPulseSweepRegister,
    pub timer: APUTimerRegister,
    pub enabled: bool,
    pub length_counter_load_index: u8,
    pub sequencer_mode: APUSequencerMode,
    pub frame_counter_set: bool,
    pub envelope: APUEnvelope,
    pub length_counter: APULengthCounter,
}

/// A timer register after a write of one of its bytes: the low byte, or the
/// high three period bits (the rest of the byte is the length load index).
pub open spec fn timer_after_write(timer: u16, value: u8, high_byte: bool) -> u16 {
    if high_byte {
        (timer & 0x00ff) | (((value & 7) as u16) << 8u16)
    } else {
        (timer & 0xff00) | (value as u16)
    }
}

pub fn write_timer_value(timer: APUTimerRegister, value: u8, high_byte: bool) -> (r: APUTimerRegister)
    ensures
        r.0 == timer_after_write(timer.0, value, high_byte),
{
    if high_byte {
        APUTimerRegister((timer.0 & 0x00ff) | (((value & 7) as u16) << 8u16))
    } else {
        APUTimerRegister((timer.0 & 0xff00) | (value as u16))
    }
}

impl APUPulseChannel {
    pub open spec fn new_spec() -> APUPulseChannel {
        APUPulseChannel {
            control: APUPulseControlRegister(0),
            sweep: APUPulseSweepRegister(0),
            timer: APUTimerRegister(0),
            enabled: false,
            length_counter_load_index: 0,
            sequencer_mode: APUSequencerMode::FourStep,
            frame_counter_set: false,
            envelope: APUEnvelope {
                start_flag: false,
                loop_flag: false,
                enabled: true,
                divider: 0,
                decay: 0,
                volume: 0,
                output: 0,
            },
            length_counter: APULengthCounter { counter: 0, enable: true, halt: false },
        }
    }

    /// The channel after the status register enables or disables it; disabling
    /// silences the length counter.
    pub open spec fn write_enabled_spec(self, enabled: bool) -> APUPulseChannel {
        APUPulseChannel {
            enabled,
            length_counter: if enabled {
                self.length_counter
            } else {
                APULengthCounter { counter: 0, ..self.length_counter }
            },
            ..self
        }
    }

    /// The channel after a control write: halt and loop flags, envelope mode and
    /// volume taken from the register, then one envelope clock.
    pub open spec fn write_control_spec(self, value: APUPulseControlRegister) -> APUPulseChannel {
        let v = value.0;
        APUPulseChannel {
            control: value,
            length_counter: APULengthCounter { halt: flag(v, 5), ..self.length_counter },
            envelope: APUEnvelope {
                loop_flag: flag(v, 5),
                enabled: !flag(v, 4),
                volume: (v & 0xf) as u16,
                ..self.envelope
            }.tick_spec(),
            ..self
        }
    }

    /// The channel after a timer byte write; a high byte written while enabled
    /// also loads the length counter and restarts the envelope.
    pub open spec fn write_timer_byte_spec(self, value: u8, high_byte: bool) -> APUPulseChannel {
        let c = APUPulseChannel {
            timer: APUTimerRegister(timer_after_write(self.timer.0, value, high_byte)),
            ..self
        };
        if high_byte && self.enabled {
            APUPulseChannel {
                length_counter_load_index: value >> 3u8,
                length_counter: APULengthCounter {
                    counter: length_table(value >> 3u8),
                    ..c.length_counter
                },
                envelope: APUEnvelope { start_flag: true, ..c.envelope },
                ..c
            }
        } else {
            c
        }
    }

    /// The channel after a frame counter write: the sequencer mode, and in
    /// five-step mode an immediate length and envelope clock.
    pub open spec fn write_frame_counter_spec(self, fc: APUFrameCounterRegister) -> APUPulseChannel {
        let mode = sequencer_mode_from(fc.0 >> 7u8);
        if mode == APUSequencerMode::FiveStep {
            APUPulseChannel {
                sequencer_mode: mode,
                frame_counter_set: true,
                length_counter: self.length_counter.tick_spec(),
                envelope: self.envelope.tick_spec(),
                ..self
            }
        } else {
            APUPulseChannel { sequencer_mode: mode, ..self }
        }
    }

    /// The state a capture reports.
    pub open spec fn captured(self) -> APUPulseChannelState {
        APUPulseChannelState {
            control: self.control,
            enabled: self.enabled,
            length_counter_load_index: self.length_counter_load_index,
            sequencer_mode: self.sequencer_mode,
            timer_register: self.timer,
            sweep: self.sweep,
            frame_counter_set: self.frame_counter_set,
        }
    }

    /// The channel after a capture: its frame-counter event is reported.
    pub open spec fn after_capture(self) -> APUPulseChannel {
        APUPulseChannel { frame_counter_set: false, ..self }
    }

    pub fn new() -> (r: APUPulseChannel)
        ensures
            r == APUPulseChannel::new_spec(),
    {
        APUPulseChannel {
            control: APUPulseControlRegister(0),
            sweep: APUPulseSweepRegister(0),
            timer: APUTimerRegister(0),
            enabled: false,
            length_counter_load_index: 0,
            sequencer_mode: APUSequencerMode::FourStep,
            frame_counter_set: false,
            envelope: APUEnvelope::new(),
            length_counter: APULengthCounter::new(),
        }
    }

    pub fn write_enabled(&mut self, enabled: bool)
        ensures
            *final(self) == old(self).write_enabled_spec(enabled),
    {
        self.enabled = enabled;
        if !self.enabled {
            self.length_counter.reset();
        }
    }

    pub fn write_control(&mut self, value: APUPulseControlRegister)
        ensures
            *final(self) == old(self).write_control_spec(value),
    {
        self.control = value;
        let halt = value.length_counter_halt();
        self.length_counter.halt = halt;
        self.envelope.loop_flag = halt;
        self.envelope.enabled = !value.constant_volume_envelope();
        self.envelope.volume = value.volume_envelope_divider_period() as u16;
        self.envelope.tick();
    }

    pub fn write_sweep(&mut self, value: APUPulseSweepRegister)
        ensures
            *final(self) == (APUPulseChannel { sweep: value, ..*old(self) }),
    {
        self.sweep = value;
    }

    pub fn write_timer_byte(&mut self, value: u8, high_byte: bool)
        ensures
            *final(self) == old(self).write_timer_byte_spec(value, high_byte),
    {
        self.timer = write_timer_value(self.timer, value, high_byte);
        if high_byte && self.enabled {
            self.length_counter_load_index = value >> 3u8;
            self.length_counter.load_length(self.length_counter_load_index);
            self.envelope.start_flag = true;
        }
    }

    pub fn write_frame_counter(&mut self, frame_counter: APUFrameCounterRegister)
        ensures
            *final(self) == old(self).write_frame_counter_spec(frame_counter),
    {
        self.sequencer_mode = frame_counter.sequencer_mode();
        if self.sequencer_mode == APUSequencerMode::FiveStep {
            self.frame_counter_set = true;
            self.length_counter.tick();
            self.envelope.tick();
        }
    }
}

impl APUChannel for APUPulseChannel {
    /// Enabled, with the length counter running.
    open spec fn playing_spec(&self) -> bool {
        self.enabled && self.length_counter.counter > 0
    }

    /// An envelope clock on quarter frames, a length clock on half frames.
    open spec fn tick_spec(&self, now: APUTimerInstant) -> APUPulseChannel {
        APUPulseChannel {
            envelope: if now.quarter_frame() {
                self.envelope.tick_spec()
            } else {
                self.envelope
            },
            length_counter: if now.half_frame() {
                self.length_counter.tick_spec()
            } else {
                self.length_counter
            },
            ..*self
        }
    }

    fn playing(&self) -> (r: bool) {
        self.enabled && self.length_counter.counter > 0
    }

    fn tick(&mut self, now: &APUTimerInstant) {
        if now.is_quarter_frame() {
            self.envelope.tick();
        }
        if now.is_half_frame() {
            self.length_counter.tick();
        }
    }
}

/// What a pulse channel's oscillator is told each time the APU reports.
#[derive(Debug, Clone, Copy, PartialEq, Eq, Structural)]
pub struct APUPulseChannelState {
    pub control: APUPulseControlRegister,
    pub enabled: bool,
    pub length_counter_load_index: u8,
    pub sequencer_mode: APUSequencerMode,
    pub timer_register: APUTimerRegister,
    pub sweep: APUPulseSweepRegister,
    pub frame_counter_set: bool,
}

impl APUPulseChannelState {
    /// The commands that bring an oscillator to this state, in a fixed order.
    pub open spec fn command_list(self) -> Seq<APUPulseOscillatorCommand> {
        seq![
            APUPulseOscillatorCommand::SetEnabled(self.enabled),
            APUPulseOscillatorCommand::WriteControl(self.control),
            APUPulseOscillatorCommand::WriteSweep(self.sweep),
            APUPulseOscillatorCommand::WriteTimerRegister(self.timer_register),
            APUPulseOscillatorCommand::LoadLengthCounterByIndex(self.length_counter_load_index),
            APUPulseOscillatorCommand::SetAPUSequencerMode(self.sequencer_mode),
            if self.frame_counter_set {
                APUPulseOscillatorCommand::FrameCounterSet
            } else {
                APUPulseOscillatorCommand::NoOp
            },
        ]
    }

    /// Takes the channel's reportable state; the frame-counter event is
    /// reported once, so capturing clears it.
    pub fn capture(channel: &mut APUPulseChannel) -> (r: APUPulseChannelState)
        ensures
            r == old(channel).captured(),
            *final(channel) == old(channel).after_capture(),
    {
        let frame_counter_set = channel.frame_counter_set;
        channel.frame_counter_set = false;
        APUPulseChannelState {
            enabled: channel.enabled,
            control: channel.control,
            length_counter_load_index: channel.length_counter_load_index,
            sequencer_mode: channel.sequencer_mode,
            timer_register: channel.timer,
            sweep: channel.sweep,
            frame_counter_set,
        }
    }

    pub fn commands(&self) -> (r: Vec<APUPulseOscillatorCommand>)
        ensures
            r@ == self.command_list(),
    {
        let mut v: Vec<APUPulseOscillatorCommand> = Vec::new();
        v.push(APUPulseOscillatorCommand::SetEnabled(self.enabled));
        v.push(APUPulseOscillatorCommand::WriteControl(self.control));
        v.push(APUPulseOscillatorCommand::WriteSweep(self.sweep));
        v.push(APUPulseOscillatorCommand::WriteTimerRegister(self.timer_register));
        v.push(APUPulseOscillatorCommand::LoadLengthCounterByIndex(self.length_counter_load_index));
        v.push(APUPulseOscillatorCommand::SetAPUSequencerMode(self.sequencer_mode));
        v.push(
            if self.frame_counter_set {
                APUPulseOscillatorCommand::FrameCounterSet
            } else {
                APUPulseOscillatorCommand::NoOp
            },
        );
        assert(v@ =~= self.command_list());
        v
    }
}

} // verus!
