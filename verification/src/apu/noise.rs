use vstd::prelude::*;

use super::channel::APUChannel;
use super::registers::{
    flag, sequencer_mode_from, APUFrameCounterRegister, APUNoiseControlRegister,
    APUNoiseLengthCounterLoadRegister, APUNoiseModePeriodRegister, APUSequencerMode,
};
use super::timing::APUTimerInstant;

verus! {

/// What the noise channel tells its oscillator.
#[derive(Debug, Clone, Copy, PartialEq, Eq, Structural)]
pub enum APUNoiseOscillatorCommand {
    NoOp,
    SetShiftRegisterReload(u16),
    SetEnabled(bool),
    SetMode(bool),
    SetEnvelopeParamsAndLengthCounterHalt(bool, u8, bool),
    LoadLengthCounterByIndex(u8),
    SetAPUSequencerMode(APUSequencerMode),
}

/// The noise channel's registers.
#[derive(Debug, Clone, Copy, PartialEq, Eq, Structural)]
pub struct APUNoiseChannel {
    pub control: APUNoiseControlRegister,
    pub mode_period: APUNoiseModePeriodRegister,
    pub enabled: bool,
    pub length_counter_load: u8,
    pub sequencer_mode: APUSequencerMode,
}

impl APUNoiseChannel {
    pub open spec fn new_spec() -> APUNoiseChannel {
        APUNoiseChannel {
            control: APUNoiseControlRegister(0),
            mode_period: APUNoiseModePeriodRegister(0),
            enabled: false,
            length_counter_load: 0,
            sequencer_mode: APUSequencerMode::FourStep,
        }
    }

    /// The state a capture reports.
    pub open spec fn captured(self) -> APUNoiseChannelState {
        APUNoiseChannelState {
            shift_register_reload: noise_period(self.mode_period.0 & 0xf),
            enabled: self.enabled,
            mode: flag(self.mode_period.0, 7),
            control: self.control,
            sequencer_mode: self.sequencer_mode,
            length_counter_load: self.length_counter_load,
        }
    }

    pub fn new() -> (r: APUNoiseChannel)
        ensures
            r == APUNoiseChannel::new_spec(),
    {
        APUNoiseChannel {
            control: APUNoiseControlRegister(0),
            mode_period: APUNoiseModePeriodRegister(0),
            enabled: false,
            length_counter_load: 0,
            sequencer_mode: APUSequencerMode::FourStep,
        }
    }

    pub fn write_control(&mut self, value: APUNoiseControlRegister)
        ensures
            *final(self) == (APUNoiseChannel { control: value, ..*old(self) }),
    {
        self.control = value;
    }

    pub fn write_mode_period(&mut self, value: APUNoiseModePeriodRegister)
        ensures
            *final(self) == (APUNoiseChannel { mode_period: value, ..*old(self) }),
    {
        self.mode_period = value;
    }

    pub fn write_length_counter_load(&mut self, value: APUNoiseLengthCounterLoadRegister)
        ensures
            *final(self) == (APUNoiseChannel { length_counter_load: value.0 >> 3u8, ..*old(self) }),
    {
        self.length_counter_load = value.length_counter_load();
    }

    pub fn write_enabled(&mut self, enabled: bool)
        ensures
            *final(self) == (APUNoiseChannel { enabled, ..*old(self) }),
    {
        self.enabled = enabled;
    }

    pub fn write_frame_counter(&mut self, frame_counter: APUFrameCounterRegister)
        ensures
            *final(self) == (APUNoiseChannel {
                sequencer_mode: sequencer_mode_from(frame_counter.0 >> 7u8),
                ..*old(self)
            }),
    {
        self.sequencer_mode = frame_counter.sequencer_mode();
    }
}

impl APUChannel for APUNoiseChannel {
    /// The channel keeps no counters of its own here: it plays while enabled.
    open spec fn playing_spec(&self) -> bool {
        self.enabled
    }

    /// The frame sequencer's clocks are the oscillator's business.
    open spec fn tick_spec(&self, now: APUTimerInstant) -> APUNoiseChannel {
        *self
    }

    fn playing(&self) -> (r: bool) {
        self.enabled
    }

    fn tick(&mut self, now: &APUTimerInstant) {
    }
}

/// The shift register reload value (the timer period in CPU cycles) that a
/// noise period index selects.
pub open spec fn noise_period(i: u8) -> u16 {
    if i == 0 {
        4
    } else if i == 1 {
        8
    } else if i == 2 {
        16
    } else if i == 3 {
        32
    } else if i == 4 {
        64
    } else if i == 5 {
        96
    } else if i == 6 {
        128
    } else if i == 7 {
        160
    } else if i == 8 {
        202
    } else if i == 9 {
        254
    } else if i == 10 {
        380
    } else if i == 11 {
        508
    } else if i == 12 {
        762
    } else if i == 13 {
        1016
    } else if i == 14 {
        2034
    } else {
        4068
    }
}

/// What the noise channel's oscillator is told each time the APU reports.
#[derive(Debug, Clone, Copy, PartialEq, Eq, Structural)]
pub struct APUNoiseChannelState {
    pub shift_register_reload: u16,
    pub enabled: bool,
    pub mode: bool,
    pub control: APUNoiseControlRegister,
    pub sequencer_mode: APUSequencerMode,
    pub length_counter_load: u8,
}

impl APUNoiseChannelState {
    /// The commands that bring an oscillator to this state, in a fixed order.
    pub open spec fn command_list(self) -> Seq<APUNoiseOscillatorCommand> {
        seq![
            APUNoiseOscillatorCommand::SetShiftRegisterReload(self.shift_register_reload),
            APUNoiseOscillatorCommand::SetEnabled(self.enabled),
            APUNoiseOscillatorCommand::SetMode(self.mode),
            APUNoiseOscillatorCommand::SetEnvelopeParamsAndLengthCounterHalt(
                !flag(self.control.0, 4),
                self.control.0 & 0xf,
                flag(self.control.0, 5),
            ),
            APUNoiseOscillatorCommand::SetAPUSequencerMode(self.sequencer_mode),
            APUNoiseOscillatorCommand::LoadLengthCounterByIndex(self.length_counter_load),
        ]
    }

    pub fn capture(channel: &APUNoiseChannel) -> (r: APUNoiseChannelState)
        ensures
            r == channel.captured(),
    {
        let reload: u16 = match channel.mode_period.period() {
            0 => 4,
            1 => 8,
            2 => 16,
            3 => 32,
            4 => 64,
            5 => 96,
            6 => 128,
            7 => 160,
            8 => 202,
            9 => 254,
            0xa => 380,
            0xb => 508,
            0xc => 762,
            0xd => 1016,
            0xe => 2034,
            _ => 4068,
        };
        APUNoiseChannelState {
            enabled: channel.enabled,
            mode: channel.mode_period.mode(),
            shift_register_reload: reload,
            control: channel.control,
            sequencer_mode: channel.sequencer_mode,
            length_counter_load: channel.length_counter_load,
        }
    }

    pub fn commands(&self) -> (r: Vec<APUNoiseOscillatorCommand>)
        ensures
            r@ == self.command_list(),
    {
        let mut v: Vec<APUNoiseOscillatorCommand> = Vec::new();
        v.push(APUNoiseOscillatorCommand::SetShiftRegisterReload(self.shift_register_reload));
        v.push(APUNoiseOscillatorCommand::SetEnabled(self.enabled));
        v.push(APUNoiseOscillatorCommand::SetMode(self.mode));
        v.push(
            APUNoiseOscillatorCommand::SetEnvelopeParamsAndLengthCounterHalt(
                !self.control.constant_volume_envelope(),
                self.control.volume_envelope_divider_period(),
                self.control.length_counter_halt(),
            ),
        );
        v.push(APUNoiseOscillatorCommand::SetAPUSequencerMode(self.sequencer_mode));
        v.push(APUNoiseOscillatorCommand::LoadLengthCounterByIndex(self.length_counter_load));
        assert(v@ =~= self.command_list());
        v
    }
}

} // verus!
