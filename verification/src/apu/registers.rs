use vstd::prelude::*;

verus! {

/// Whether bit `n` of `v` is set.
pub open spec fn flag(v: u8, n: u8) -> bool {
    (v >> n) & 1 == 1
}

/// Pulse control ($4000/$4004): volume or envelope period (bits 0-3), constant
/// volume (bit 4), length counter halt (bit 5), duty cycle (bits 6-7).
#[derive(Debug, Clone, Copy, PartialEq, Eq, Structural)]
pub struct APUPulseControlRegister(pub u8);

/// Pulse sweep ($4001/$4005): shift count (bits 0-2), negate (bit 3), divider
/// period (bits 4-6), enabled (bit 7).
#[derive(Debug, Clone, Copy, PartialEq, Eq, Structural)]
pub struct APUPulseSweepRegister(pub u8);

/// A channel timer: the 11-bit period (bits 0-10) and the length counter load
/// index (bits 11-15).
#[derive(Debug, Clone, Copy, PartialEq, Eq, Structural)]
pub struct APUTimerRegister(pub u16);

/// Triangle control ($4008): linear counter reload value (bits 0-6), control
/// flag (bit 7).
#[derive(Debug, Clone, Copy, PartialEq, Eq, Structural)]
pub struct APUTriangleControlRegister(pub u8);

/// Noise control ($400C): volume or envelope period (bits 0-3), constant volume
/// (bit 4), length counter halt (bit 5).
#[derive(Debug, Clone, Copy, PartialEq, Eq, Structural)]
pub struct APUNoiseControlRegister(pub u8);

/// Noise mode and period ($400E): period index (bits 0-3), mode (bit 7).
#[derive(Debug, Clone, Copy, PartialEq, Eq, Structural)]
pub struct APUNoiseModePeriodRegister(pub u8);

/// Noise length counter load ($400F): the load index in bits 3-7.
#[derive(Debug, Clone, Copy, PartialEq, Eq, Structural)]
pub struct APUNoiseLengthCounterLoadRegister(pub u8);

/// Status ($4015): channel enables (bits 0-4), frame interrupt (bit 6), DMC
/// interrupt (bit 7).
#[derive(Debug, Clone, Copy, PartialEq, Eq, Structural)]
pub struct APUStatusRegister(pub u8);

/// The frame sequencer's mode: a four-step or a five-step frame.
#[derive(Debug, Clone, Copy, PartialEq, Eq, Structural)]
pub enum APUSequencerMode {
    FourStep,
    FiveStep,
}

/// Frame counter ($4017): interrupt inhibit (bit 6), sequencer mode (bit 7).
#[derive(Debug, Clone, Copy, PartialEq, Eq, Structural)]
pub struct APUFrameCounterRegister(pub u8);

/// The eight-step waveform of a duty cycle setting, one bit per step.
pub open spec fn duty_sequence(duty: u8) -> u8 {
    if duty == 0 {
        0b00000001
    } else if duty == 1 {
        0b00000011
    } else if duty == 2 {
        0b00001111
    } else {
        0b11111100
    }
}

impl APUPulseControlRegister {
    pub fn volume_envelope_divider_period(&self) -> (r: u8)
        ensures
            r == self.0 & 0xf,
    {
        self.0 & 0xf
    }

    pub fn constant_volume_envelope(&self) -> (r: bool)
        ensures
            r == flag(self.0, 4),
    {
        (self.0 >> 4u8) & 1 == 1
    }

    pub fn length_counter_halt(&self) -> (r: bool)
        ensures
            r == flag(self.0, 5),
    {
        (self.0 >> 5u8) & 1 == 1
    }

    pub fn duty_cycle(&self) -> (r: u8)
        ensures
            r == self.0 >> 6u8,
    {
        self.0 >> 6u8
    }

    /// The waveform of this register's duty cycle.
    pub fn duty_cycle_sequence(&self) -> (r: u8)
        ensures
            r == duty_sequence(self.0 >> 6u8),
    {
        match self.duty_cycle() {
            0 => 0b00000001,
            1 => 0b00000011,
            2 => 0b00001111,
            _ => 0b11111100,
        }
    }
}

impl APUPulseSweepRegister {
    pub fn shift_count(&self) -> (r: u8)
        ensures
            r == self.0 & 7,
    {
        self.0 & 7
    }

    pub fn negate(&self) -> (r: bool)
        ensures
            r == flag(self.0, 3),
    {
        (self.0 >> 3u8) & 1 == 1
    }

    pub fn divider_period(&self) -> (r: u8)
        ensures
            r == (self.0 >> 4u8) & 7,
    {
        (self.0 >> 4u8) & 7
    }

    pub fn enabled(&self) -> (r: bool)
        ensures
            r == flag(self.0, 7),
    {
        (self.0 >> 7u8) & 1 == 1
    }
}

/// The register with its 11-bit period replaced by the low 11 bits of `t`.
pub open spec fn with_timer_spec(v: u16, t: u16) -> u16 {
    (v & 0xf800) | (t & 0x7ff)
}

impl APUTimerRegister {
    pub fn timer(&self) -> (r: u16)
        ensures
            r == self.0 & 0x7ff,
    {
        self.0 & 0x7ff
    }

    pub fn length_counter_load(&self) -> (r: u8)
        ensures
            r == (self.0 >> 11u16) as u8,
    {
        let v = self.0;
        assert((v >> 11u16) <= 31) by (bit_vector);
        (v >> 11u16) as u8
    }

    /// The register with another period.
    pub fn with_timer(&self, t: u16) -> (r: APUTimerRegister)
        ensures
            r.0 == with_timer_spec(self.0, t),
    {
        APUTimerRegister((self.0 & 0xf800) | (t & 0x7ff))
    }
}

impl APUTriangleControlRegister {
    pub fn counter_reload_value(&self) -> (r: u8)
        ensures
            r == self.0 & 0x7f,
    {
        self.0 & 0x7f
    }

    pub fn control_flag(&self) -> (r: bool)
        ensures
            r == flag(self.0, 7),
    {
        (self.0 >> 7u8) & 1 == 1
    }
}

impl APUNoiseControlRegister {
    pub fn volume_envelope_divider_period(&self) -> (r: u8)
        ensures
            r == self.0 & 0xf,
    {
        self.0 & 0xf
    }

    pub fn constant_volume_envelope(&self) -> (r: bool)
        ensures
            r == flag(self.0, 4),
    {
        (self.0 >> 4u8) & 1 == 1
    }

    pub fn length_counter_halt(&self) -> (r: bool)
        ensures
            r == flag(self.0, 5),
    {
        (self.0 >> 5u8) & 1 == 1
    }
}

impl APUNoiseModePeriodRegister {
    pub fn period(&self) -> (r: u8)
        ensures
            r == self.0 & 0xf,
    {
        self.0 & 0xf
    }

    pub fn mode(&self) -> (r: bool)
        ensures
            r == flag(self.0, 7),
    {
        (self.0 >> 7u8) & 1 == 1
    }
}

impl APUNoiseLengthCounterLoadRegister {
    pub fn length_counter_load(&self) -> (r: u8)
        ensures
            r == self.0 >> 3u8,
    {
        self.0 >> 3u8
    }
}

impl APUStatusRegister {
    pub fn pulse1_enable(&self) -> (r: bool)
        ensures
            r == flag(self.0, 0),
    {
        (self.0 >> 0u8) & 1 == 1
    }

    pub fn pulse2_enable(&self) -> (r: bool)
        ensures
            r == flag(self.0, 1),
    {
        (self.0 >> 1u8) & 1 == 1
    }

    pub fn triangle_enable(&self) -> (r: bool)
        ensures
            r == flag(self.0, 2),
    {
        (self.0 >> 2u8) & 1 == 1
    }

    pub fn noise_enable(&self) -> (r: bool)
        ensures
            r == flag(self.0, 3),
    {
        (self.0 >> 3u8) & 1 == 1
    }

    pub fn dmc_enable(&self) -> (r: bool)
        ensures
            r == flag(self.0, 4),
    {
        (self.0 >> 4u8) & 1 == 1
    }

    pub fn frame_interrupt(&self) -> (r: bool)
        ensures
            r == flag(self.0, 6),
    {
        (self.0 >> 6u8) & 1 == 1
    }

    pub fn dmc_interrupt(&self) -> (r: bool)
        ensures
            r == flag(self.0, 7),
    {
        (self.0 >> 7u8) & 1 == 1
    }
}

/// The sequencer mode a bit selects.
pub open spec fn sequencer_mode_from(v: u8) -> APUSequencerMode {
    if v == 0 {
        APUSequencerMode::FourStep
    } else {
        APUSequencerMode::FiveStep
    }
}

impl APUSequencerMode {
    pub fn into_bits(self) -> (r: u8)
        ensures
            r == (if self == APUSequencerMode::FourStep {
                0u8
            } else {
                1u8
            }),
    {
        match self {
            APUSequencerMode::FourStep => 0,
            APUSequencerMode::FiveStep => 1,
        }
    }

    pub fn from_bits(value: u8) -> (r: APUSequencerMode)
        ensures
            r == sequencer_mode_from(value),
    {
        match value {
            0 => APUSequencerMode::FourStep,
            _ => APUSequencerMode::FiveStep,
        }
    }
}

impl APUFrameCounterRegister {
    pub fn interrupt_inhibit(&self) -> (r: bool)
        ensures
            r == flag(self.0, 6),
    {
        (self.0 >> 6u8) & 1 == 1
    }

    pub fn sequencer_mode(&self) -> (r: APUSequencerMode)
        ensures
            r == sequencer_mode_from(self.0 >> 7u8),
    {
        APUSequencerMode::from_bits(self.0 >> 7u8)
    }
}

} // verus!
