use vstd::prelude::*;

use super::envelope::APUEnvelope;
use super::length_counter::{length_table, APULengthCounter};
use super::linear_counter::APULinearCounter;
use super::noise::{APUNoiseChannelState, APUNoiseOscillatorCommand};
use super::pulse::{APUPulseChannelState, APUPulseOscillatorCommand};
use super::registers::{duty_sequence, flag, APUSequencerMode, APUTimerRegister};
use super::sequencer::APUSequencer;
use super::sweep::APUSweep;
use super::timing::{APUOscillatorTimer, APUTimerInstant, CycleCountRange};
use super::triangle::{APUTriangleChannelState, APUTriangleOscillatorCommand};

verus! {

/// The triangle channel's oscillator state: what the commands set, which the
/// sample generator reads.
#[derive(Debug, Clone, Copy)]
pub struct APUTriangleOscillator {
    pub harmonics: usize,
    pub enabled: bool,
    pub length_counter: APULengthCounter,
    pub linear_counter: APULinearCounter,
    pub sequencer: APUSequencer,
    pub timer: APUOscillatorTimer,
    pub timer_register: APUTimerRegister,
}

impl APUTriangleOscillator {
    /// The state a new oscillator starts in: silent, summing 20 harmonics.
    pub open spec fn is_initial(self) -> bool {
        &&& self.harmonics == 20
        &&& !self.enabled
        &&& self.length_counter == (APULengthCounter { counter: 0, enable: true, halt: false })
        &&& self.linear_counter == (APULinearCounter {
                counter: 0,
                reload_flag: false,
                reload_value: 0,
                control_flag: false,
            })
        &&& self.sequencer == (APUSequencer { sequence: 0, timer: 0, reload: 0, output: 0 })
        &&& self.timer.sample_count == 0
        &&& self.timer.sequencer_mode == APUSequencerMode::FourStep
        &&& self.timer_register == APUTimerRegister(0)
    }

    /// A silent oscillator summing 20 harmonics.
    pub fn new() -> (r: APUTriangleOscillator)
        ensures
            r.is_initial(),

    {
        APUTriangleOscillator {
            harmonics: 20,
            enabled: false,
            length_counter: APULengthCounter::new(),
            linear_counter: APULinearCounter::new(),
            sequencer: APUSequencer::new(),
            timer: APUOscillatorTimer::new(),
            timer_register: APUTimerRegister(0),
        }
    }

    /// The oscillator after the frame sequencer's clocks in the span `now`
    /// (taken within its frame): a quarter frame clocks the linear counter, a
    /// half frame the length counter.
    pub open spec fn frame_clocked(self, now: APUTimerInstant) -> APUTriangleOscillator {
        let n = now.normalized();
        APUTriangleOscillator {
            linear_counter: if n.quarter_frame() {
                self.linear_counter.tick_spec()
            } else {
                self.linear_counter
            },
            length_counter: if n.half_frame() {
                self.length_counter.tick_spec()
            } else {
                self.length_counter
            },
            ..self
        }
    }

    /// Applies the frame sequencer's clocks in the span `now`.
    pub fn clock_frame(&mut self, now: &APUTimerInstant)
        ensures
            *final(self) == old(self).frame_clocked(*now),
    {
        let n = now.frame_normalized();
        if n.is_quarter_frame() {
            self.linear_counter.tick();
        }
        if n.is_half_frame() {
            self.length_counter.tick();
        }
    }

    /// What applying `command` to `self` leaves.
    pub open spec fn handled(self, command: APUTriangleOscillatorCommand, after: APUTriangleOscillator) -> bool {
        match command {
            APUTriangleOscillatorCommand::NoOp => after == self,
            APUTriangleOscillatorCommand::SetEnabled(e) => after == (APUTriangleOscillator {
                enabled: e,
                ..self
            }),
            APUTriangleOscillatorCommand::WriteControl(v) => after == (APUTriangleOscillator {
                linear_counter: APULinearCounter {
                    counter: v.0 & 0x7f,
                    control_flag: flag(v.0, 7),
                    ..self.linear_counter
                },
                length_counter: APULengthCounter { halt: flag(v.0, 7), ..self.length_counter },
                ..self
            }),
            APUTriangleOscillatorCommand::WriteTimerRegister(v) => after == (APUTriangleOscillator {
                sequencer: APUSequencer { timer: v.0 & 0x7ff, ..self.sequencer },
                ..self
            }),
            APUTriangleOscillatorCommand::LoadLengthCounterByIndex(i) => after == (APUTriangleOscillator {
                length_counter: APULengthCounter { counter: length_table(i), ..self.length_counter },
                linear_counter: APULinearCounter { reload_flag: true, ..self.linear_counter },
                ..self
            }),
            APUTriangleOscillatorCommand::SetAPUSequencerMode(m) => {
                &&& after.timer.sequencer_mode == m
                &&& after.timer.sample_count == self.timer.sample_count
                &&& after.timer.prev_sample_count == self.timer.prev_sample_count
                &&& after.enabled == self.enabled
                &&& after.length_counter == self.length_counter
                &&& after.linear_counter == self.linear_counter
                &&& after.sequencer == self.sequencer
                &&& after.timer_register == self.timer_register
            },
        }
    }

    /// Applies a command from the triangle channel. A control write sets the
    /// linear counter (value and control flag) and the length counter's halt;
    /// a timer write sets the sequencer's timer to the period; a length load
    /// loads the length counter and asks the linear counter to reload.
    pub fn handle_command(&mut self, command: APUTriangleOscillatorCommand)
        ensures
            old(self).handled(command, *final(self)),
    {
        match command {
            APUTriangleOscillatorCommand::NoOp => {},
            APUTriangleOscillatorCommand::SetEnabled(enabled) => self.enabled = enabled,
            APUTriangleOscillatorCommand::WriteControl(value) => {
                self.linear_counter.counter = value.counter_reload_value();
                self.linear_counter.control_flag = value.control_flag();
                self.length_counter.halt = value.control_flag();
            },
            APUTriangleOscillatorCommand::WriteTimerRegister(value) => {
                self.sequencer.timer = value.timer();
            },
            APUTriangleOscillatorCommand::LoadLengthCounterByIndex(index) => {
                self.length_counter.load_length(index);
                self.linear_counter.reload_flag = true;
            },
            APUTriangleOscillatorCommand::SetAPUSequencerMode(mode) => {
                self.timer.sequencer_mode = mode;
            },
        }
    }
}

/// The noise channel's oscillator state.
#[derive(Debug, Clone, Copy)]
pub struct APUNoiseOscillator {
    pub shift_register: APUSequencer,
    pub envelope: APUEnvelope,
    pub length_counter: APULengthCounter,
    pub timer: APUOscillatorTimer,
    pub mode: bool,
    pub enabled: bool,
}

/// One step of the noise shift register: feedback from bit 0 and bit 6 (mode
/// set) or bit 1 enters at bit 14 as the register shifts right.
pub open spec fn noise_step(value: u32, mode: bool) -> u32 {
    let feedback_bit: u32 = if mode {
        6
    } else {
        1
    };
    let feedback = (value & 1) ^ ((value & (1u32 << feedback_bit)) >> feedback_bit);
    (value >> 1u32) | (feedback << 14u32)
}

/// Steps the noise shift register.
pub fn noise_feedback(value: u32, mode: bool) -> (r: u32)
    ensures
        r == noise_step(value, mode),
{
    let feedback_bit: u32 = if mode {
        6
    } else {
        1
    };
    let feedback = (value & 1) ^ ((value & (1u32 << feedback_bit)) >> feedback_bit);
    (value >> 1u32) | (feedback << 14u32)
}

/// One CPU cycle of the noise shift register: a timer at zero reloads and
/// steps the register by the feedback of `mode`; otherwise the timer counts down.
pub open spec fn noise_clock(s: APUSequencer, mode: bool) -> APUSequencer {
    if s.timer == 0 {
        let v = noise_step(s.sequence, mode);
        APUSequencer { timer: (s.reload + 1) as u16, sequence: v, output: (v & 1) as u8, ..s }
    } else {
        APUSequencer { timer: (s.timer - 1) as u16, ..s }
    }
}

/// `n` CPU cycles of the noise shift register.
pub open spec fn noise_clocks(s: APUSequencer, mode: bool, n: nat) -> APUSequencer
    decreases n,
{
    if n == 0 {
        s
    } else {
        noise_clock(noise_clocks(s, mode, (n - 1) as nat), mode)
    }
}

/// Clocking keeps the reload value.
proof fn lemma_noise_clocks_reload(s: APUSequencer, mode: bool, n: nat)
    ensures
        noise_clocks(s, mode, n).reload == s.reload,
    decreases n,
{
    if n > 0 {
        lemma_noise_clocks_reload(s, mode, (n - 1) as nat);
    }
}

impl APUNoiseOscillator {
    /// The state a new oscillator starts in: silent, with the shift register loaded with 1.
    pub open spec fn is_initial(self) -> bool {
        &&& self.shift_register == (APUSequencer { sequence: 1, timer: 0, reload: 0, output: 0 })
        &&& self.envelope == (APUEnvelope {
                start_flag: false,
                loop_flag: false,
                enabled: true,
                divider: 0,
                decay: 0,
                volume: 0,
                output: 0,
            })
        &&& self.length_counter == (APULengthCounter { counter: 0, enable: true, halt: false })
        &&& self.timer.sample_count == 0
        &&& self.timer.sequencer_mode == APUSequencerMode::FourStep
        &&& !self.mode
        &&& !self.enabled
    }

    /// A silent oscillator with the shift register loaded with 1.
    pub fn new() -> (r: APUNoiseOscillator)
        ensures
            r.is_initial(),

    {
        let mut shift_register = APUSequencer::new();
        shift_register.sequence = 1;
        APUNoiseOscillator {
            shift_register,
            envelope: APUEnvelope::new(),
            length_counter: APULengthCounter::new(),
            timer: APUOscillatorTimer::new(),
            mode: false,
            enabled: false,
        }
    }

    /// The oscillator after the frame sequencer's clocks in the span `now`
    /// (taken within its frame): a quarter frame clocks the envelope, a half
    /// frame the length counter.
    pub open spec fn frame_clocked(self, now: APUTimerInstant) -> APUNoiseOscillator {
        let n = now.normalized();
        APUNoiseOscillator {
            envelope: if n.quarter_frame() {
                self.envelope.tick_spec()
            } else {
                self.envelope
            },
            length_counter: if n.half_frame() {
                self.length_counter.tick_spec()
            } else {
                self.length_counter
            },
            ..self
        }
    }

    /// Applies the frame sequencer's clocks in the span `now`.
    pub fn clock_frame(&mut self, now: &APUTimerInstant)
        ensures
            *final(self) == old(self).frame_clocked(*now),
    {
        let n = now.frame_normalized();
        if n.is_quarter_frame() {
            self.envelope.tick();
        }
        if n.is_half_frame() {
            self.length_counter.tick();
        }
    }

    /// Clocks the shift register once for each CPU cycle of `cycles`, stepping
    /// it by the feedback of the oscillator's mode whenever its timer runs out.
    pub fn clock_shift_register(&mut self, cycles: &CycleCountRange)
        requires
            old(self).shift_register.reload < 0xffff,
        ensures
            *final(self) == (APUNoiseOscillator {
                shift_register: noise_clocks(
                    old(self).shift_register,
                    old(self).mode,
                    if cycles.end > cycles.start {
                        (cycles.end - cycles.start) as nat
                    } else {
                        0
                    },
                ),
                ..*old(self)
            }),
    {
        let mode = self.mode;
        let count: u64 = if cycles.end > cycles.start {
            cycles.end - cycles.start
        } else {
            0
        };
        let mut i: u64 = 0;
        while i < count
            invariant
                i <= count,
                count == (if cycles.end > cycles.start {
                    (cycles.end - cycles.start) as nat
                } else {
                    0
                }),
                mode == old(self).mode,
                self.shift_register.reload == old(self).shift_register.reload,
                old(self).shift_register.reload < 0xffff,
                *self == (APUNoiseOscillator {
                    shift_register: noise_clocks(old(self).shift_register, mode, i as nat),
                    ..*old(self)
                }),
            decreases count - i,
        {
            proof {
                lemma_noise_clocks_reload(old(self).shift_register, mode, i as nat);
            }
            let step = |v: u32| -> (r: u32)
                ensures
                    r == noise_step(v, mode),
                { noise_feedback(v, mode) };
            self.shift_register.tick(true, step);
            i = i + 1;
        }
    }

    /// What applying `command` to `self` leaves.
    pub open spec fn handled(self, command: APUNoiseOscillatorCommand, after: APUNoiseOscillator) -> bool {
        match command {
            APUNoiseOscillatorCommand::NoOp => after == self,
            APUNoiseOscillatorCommand::SetShiftRegisterReload(v) => after == (APUNoiseOscillator {
                shift_register: APUSequencer { reload: v, ..self.shift_register },
                ..self
            }),
            APUNoiseOscillatorCommand::SetEnabled(e) => after == (APUNoiseOscillator {
                enabled: e,
                ..self
            }),
            APUNoiseOscillatorCommand::SetMode(m) => after == (APUNoiseOscillator {
                mode: m,
                ..self
            }),
            APUNoiseOscillatorCommand::SetEnvelopeParamsAndLengthCounterHalt(e, p, h) => after
                == (APUNoiseOscillator {
                envelope: APUEnvelope { enabled: e, volume: p as u16, ..self.envelope },
                length_counter: APULengthCounter { halt: h, ..self.length_counter },
                ..self
            }),
            APUNoiseOscillatorCommand::LoadLengthCounterByIndex(i) => after == (APUNoiseOscillator {
                length_counter: APULengthCounter { counter: length_table(i), ..self.length_counter },
                envelope: APUEnvelope { start_flag: true, ..self.envelope },
                ..self
            }),
            APUNoiseOscillatorCommand::SetAPUSequencerMode(m) => {
                &&& after.timer.sequencer_mode == m
                &&& after.shift_register == self.shift_register
                &&& after.envelope == self.envelope
                &&& after.length_counter == self.length_counter
                &&& after.mode == self.mode
                &&& after.enabled == self.enabled
            },
        }
    }

    /// Applies a command from the noise channel.
    pub fn handle_command(&mut self, command: APUNoiseOscillatorCommand)
        ensures
            final(self).timer.sample_count == old(self).timer.sample_count,
            old(self).handled(command, *final(self)),
    {
        match command {
            APUNoiseOscillatorCommand::NoOp => {},
            APUNoiseOscillatorCommand::SetShiftRegisterReload(value) => {
                self.shift_register.reload = value;
            },
            APUNoiseOscillatorCommand::SetEnabled(enabled) => self.enabled = enabled,
            APUNoiseOscillatorCommand::SetMode(mode) => self.mode = mode,
            APUNoiseOscillatorCommand::SetEnvelopeParamsAndLengthCounterHalt(enabled, divider_period, halt) => {
                self.envelope.enabled = enabled;
                self.envelope.volume = divider_period as u16;
                self.length_counter.halt = halt;
            },
            APUNoiseOscillatorCommand::LoadLengthCounterByIndex(value) => {
                self.length_counter.load_length(value);
                self.envelope.start_flag = true;
            },
            APUNoiseOscillatorCommand::SetAPUSequencerMode(mode) => {
                self.timer.sequencer_mode = mode;
            },
        }
    }
}


/// A pulse channel's oscillator state. The duty cycle is kept as the control
/// register's two duty bits (0: 12.5%, 1: 25%, 2: 50%, 3: 75%).
#[derive(Debug, Clone, Copy)]
pub struct APUPulseOscillator {
    pub harmonics: usize,
    pub enabled: bool,
    pub duty_cycle: u8,
    pub sequencer: APUSequencer,
    pub envelope: APUEnvelope,
    pub length_counter: APULengthCounter,
    pub timer: APUOscillatorTimer,
    pub timer_register: APUTimerRegister,
    pub sweep: APUSweep,
}

impl APUPulseOscillator {
    /// The sweep's shift count is one that a sweep register can hold.
    pub open spec fn wf(self) -> bool {
        self.sweep.shift_count < 8
    }

    /// The state a new oscillator starts in: silent, at 50% duty, summing 20 harmonics.
    pub open spec fn is_initial(self, ones_complement_negate: bool) -> bool {
        &&& self.wf()
        &&& self.harmonics == 20
        &&& !self.enabled
        &&& self.duty_cycle == 2
        &&& self.sequencer == (APUSequencer { sequence: 0, timer: 0, reload: 0, output: 0 })
        &&& self.envelope == (APUEnvelope {
                start_flag: false,
                loop_flag: false,
                enabled: true,
                divider: 0,
                decay: 0,
                volume: 0,
                output: 0,
            })
        &&& self.length_counter == (APULengthCounter { counter: 0, enable: true, halt: false })
        &&& self.timer.sample_count == 0
        &&& self.timer.sequencer_mode == APUSequencerMode::FourStep
        &&& self.timer_register == APUTimerRegister(0)
        &&& self.sweep == (APUSweep {
                enabled: false,
                shift_count: 0,
                negate: false,
                output: APUTimerRegister(0),
                ones_complement_negate,
                divider_period: 0,
                divider: 0,
                reload_flag: false,
            })
    }

    /// A silent oscillator at 50% duty summing 20 harmonics; the first pulse
    /// channel's sweep negates in ones' complement.
    pub fn new(ones_complement_negate: bool) -> (r: APUPulseOscillator)
        ensures
            r.is_initial(ones_complement_negate),

    {
        APUPulseOscillator {
            harmonics: 20,
            enabled: false,
            duty_cycle: 2,
            sequencer: APUSequencer::new(),
            envelope: APUEnvelope::new(),
            length_counter: APULengthCounter::new(),
            timer: APUOscillatorTimer::new(),
            timer_register: APUTimerRegister(0),
            sweep: APUSweep::new(ones_complement_negate),
        }
    }

    /// The oscillator after the frame sequencer's clocks in the span `now`
    /// (taken within its frame): a quarter frame clocks the envelope, a half
    /// frame the length counter and the sweep.
    pub open spec fn frame_clocked(self, now: APUTimerInstant) -> APUPulseOscillator {
        let n = now.normalized();
        APUPulseOscillator {
            envelope: if n.quarter_frame() {
                self.envelope.tick_spec()
            } else {
                self.envelope
            },
            length_counter: if n.half_frame() {
                self.length_counter.tick_spec()
            } else {
                self.length_counter
            },
            sweep: if n.half_frame() {
                self.sweep.tick_spec(self.timer_register)
            } else {
                self.sweep
            },
            ..self
        }
    }

    /// Applies the frame sequencer's clocks in the span `now`.
    pub fn clock_frame(&mut self, now: &APUTimerInstant)
        requires
            old(self).wf(),
        ensures
            final(self).wf(),
            *final(self) == old(self).frame_clocked(*now),
    {
        let n = now.frame_normalized();
        if n.is_quarter_frame() {
            self.envelope.tick();
        }
        if n.is_half_frame() {
            self.length_counter.tick();
            let timer_register = self.timer_register;
            self.sweep.tick(&timer_register);
        }
    }

    /// What applying `command` to `self` leaves.
    pub open spec fn handled(self, command: APUPulseOscillatorCommand, after: APUPulseOscillator) -> bool {
        match command {
            APUPulseOscillatorCommand::NoOp => after == self,
            APUPulseOscillatorCommand::SetEnabled(e) => after == (APUPulseOscillator {
                enabled: e,
                length_counter: if e {
                    self.length_counter
                } else {
                    APULengthCounter { counter: 0, ..self.length_counter }
                },
                ..self
            }),
            APUPulseOscillatorCommand::WriteControl(v) => after == (APUPulseOscillator {
                duty_cycle: v.0 >> 6u8,
                sequencer: APUSequencer {
                    sequence: duty_sequence(v.0 >> 6u8) as u32,
                    ..self.sequencer
                },
                length_counter: APULengthCounter { halt: flag(v.0, 5), ..self.length_counter },
                envelope: APUEnvelope {
                    loop_flag: flag(v.0, 5),
                    enabled: !flag(v.0, 4),
                    volume: (v.0 & 15) as u16,
                    ..self.envelope
                },
                ..self
            }),
            APUPulseOscillatorCommand::WriteSweep(v) => after == (APUPulseOscillator {
                sweep: APUSweep {
                    enabled: flag(v.0, 7),
                    divider_period: (v.0 >> 4u8) & 7,
                    negate: flag(v.0, 3),
                    shift_count: v.0 & 7,
                    reload_flag: true,
                    ..self.sweep
                },
                ..self
            }),
            APUPulseOscillatorCommand::WriteTimerRegister(v) => after == (APUPulseOscillator {
                timer_register: v,
                ..self
            }),
            APUPulseOscillatorCommand::LoadLengthCounterByIndex(i) => after == (APUPulseOscillator {
                length_counter: APULengthCounter { counter: length_table(i), ..self.length_counter },
                envelope: APUEnvelope { start_flag: true, ..self.envelope },
                ..self
            }),
            APUPulseOscillatorCommand::SetAPUSequencerMode(m) => {
                &&& after.timer.sequencer_mode == m
                &&& after.enabled == self.enabled
                &&& after.duty_cycle == self.duty_cycle
                &&& after.sequencer == self.sequencer
                &&& after.envelope == self.envelope
                &&& after.length_counter == self.length_counter
                &&& after.timer_register == self.timer_register
                &&& after.sweep == self.sweep
            },
            APUPulseOscillatorCommand::FrameCounterSet => after == (APUPulseOscillator {
                envelope: self.envelope.tick_spec(),
                length_counter: self.length_counter.tick_spec(),
                sweep: self.sweep.tick_spec(self.timer_register),
                ..self
            }),
        }
    }

    /// Applies a command from a pulse channel. Disabling silences the length
    /// counter; a control write sets the duty, the length counter's halt and
    /// the envelope; a sweep write loads the sweep unit and asks it to reload;
    /// a length load restarts the envelope; a frame-counter write clocks the
    /// envelope, the length counter and the sweep once.
    pub fn handle_command(&mut self, command: APUPulseOscillatorCommand)
        requires
            old(self).wf(),
        ensures
            final(self).wf(),
            final(self).timer.sample_count == old(self).timer.sample_count,
            final(self).timer.prev_sample_count == old(self).timer.prev_sample_count,
            old(self).handled(command, *final(self)),
    {
        match command {
            APUPulseOscillatorCommand::NoOp => {},
            APUPulseOscillatorCommand::SetEnabled(enabled) => {
                self.enabled = enabled;
                if !self.enabled {
                    self.length_counter.reset();
                }
            },
            APUPulseOscillatorCommand::WriteControl(value) => {
                self.duty_cycle = value.duty_cycle();
                self.sequencer.sequence = value.duty_cycle_sequence() as u32;
                self.length_counter.halt = value.length_counter_halt();
                self.envelope.loop_flag = value.length_counter_halt();
                self.envelope.enabled = !value.constant_volume_envelope();
                self.envelope.volume = value.volume_envelope_divider_period() as u16;
            },
            APUPulseOscillatorCommand::WriteSweep(value) => {
                self.sweep.enabled = value.enabled();
                self.sweep.divider_period = value.divider_period();
                self.sweep.negate = value.negate();
                let raw: u8 = value.0;
                let sc = value.shift_count();
                assert(sc < 8) by (bit_vector)
                    requires
                        sc == raw & 7,
                ;
                self.sweep.shift_count = sc;
                self.sweep.reload_flag = true;
            },
            APUPulseOscillatorCommand::WriteTimerRegister(value) => {
                self.timer_register = value;
            },
            APUPulseOscillatorCommand::LoadLengthCounterByIndex(index) => {
                self.length_counter.load_length(index);
                self.envelope.start_flag = true;
            },
            APUPulseOscillatorCommand::SetAPUSequencerMode(mode) => {
                self.timer.sequencer_mode = mode;
            },
            APUPulseOscillatorCommand::FrameCounterSet => {
                self.envelope.tick();
                self.length_counter.tick();
                let timer_register = self.timer_register;
                self.sweep.tick(&timer_register);
            },
        }
    }
}


/// An oscillator that has been handed, in order, every command of a pulse
/// channel's state holds that channel's enable flag, duty, timer period,
/// sweep shift and sequencer mode, whatever it held before.
pub proof fn lemma_pulse_follows_channel(st: APUPulseChannelState, o: Seq<APUPulseOscillator>)
    requires
        o.len() == 8,
        o[0].handled(st.command_list()[0], o[1]),
        o[1].handled(st.command_list()[1], o[2]),
        o[2].handled(st.command_list()[2], o[3]),
        o[3].handled(st.command_list()[3], o[4]),
        o[4].handled(st.command_list()[4], o[5]),
        o[5].handled(st.command_list()[5], o[6]),
        o[6].handled(st.command_list()[6], o[7]),
    ensures
        o[7].enabled == st.enabled,
        o[7].duty_cycle == st.control.0 >> 6u8,
        o[7].timer_register == st.timer_register,
        o[7].sweep.shift_count == st.sweep.0 & 7,
        o[7].timer.sequencer_mode == st.sequencer_mode,
{
}

/// An oscillator that has been handed, in order, every command of a triangle
/// channel's state holds that channel's enable flag, linear counter control,
/// timer period and sequencer mode, whatever it held before.
pub proof fn lemma_triangle_follows_channel(st: APUTriangleChannelState, o: Seq<APUTriangleOscillator>)
    requires
        o.len() == 6,
        o[0].handled(st.command_list()[0], o[1]),
        o[1].handled(st.command_list()[1], o[2]),
        o[2].handled(st.command_list()[2], o[3]),
        o[3].handled(st.command_list()[3], o[4]),
        o[4].handled(st.command_list()[4], o[5]),
    ensures
        o[5].enabled == st.enabled,
        o[5].linear_counter.control_flag == flag(st.control.0, 7),
        o[5].sequencer.timer == st.timer_register.0 & 0x7ff,
        o[5].timer.sequencer_mode == st.sequencer_mode,
{
}

/// An oscillator that has been handed, in order, every command of a noise
/// channel's state holds that channel's shift-register period, enable flag,
/// mode, envelope volume, length counter and sequencer mode, whatever it held
/// before.
pub proof fn lemma_noise_follows_channel(st: APUNoiseChannelState, o: Seq<APUNoiseOscillator>)
    requires
        o.len() == 7,
        o[0].handled(st.command_list()[0], o[1]),
        o[1].handled(st.command_list()[1], o[2]),
        o[2].handled(st.command_list()[2], o[3]),
        o[3].handled(st.command_list()[3], o[4]),
        o[4].handled(st.command_list()[4], o[5]),
        o[5].handled(st.command_list()[5], o[6]),
    ensures
        o[6].shift_register.reload == st.shift_register_reload,
        o[6].enabled == st.enabled,
        o[6].mode == st.mode,
        o[6].envelope.volume == (st.control.0 & 0xf) as u16,
        o[6].length_counter.counter == length_table(st.length_counter_load),
        o[6].timer.sequencer_mode == st.sequencer_mode,
{
}


/// One step of the noise shift register takes a nonzero 15-bit value to a
/// nonzero 15-bit value, in either mode: the register never locks up at 0.
pub proof fn lemma_noise_step_nonzero(value: u32, mode: bool)
    requires
        1 <= value <= 0x7fff,
    ensures
        1 <= noise_step(value, mode) <= 0x7fff,
{
    if mode {
        assert(1 <= ((value >> 1u32) | ((((value & 1) ^ ((value & (1u32 << 6u32)) >> 6u32))) << 14u32))
            <= 0x7fff) by (bit_vector)
            requires
                1 <= value <= 0x7fff,
        ;
    } else {
        assert(1 <= ((value >> 1u32) | ((((value & 1) ^ ((value & (1u32 << 1u32)) >> 1u32))) << 14u32))
            <= 0x7fff) by (bit_vector)
            requires
                1 <= value <= 0x7fff,
        ;
    }
}

/// Commands leave the noise oscillator's shift register as it was, so the
/// register, loaded with 1 by `new`, holds a nonzero 15-bit value through every
/// command as through every step.
pub proof fn lemma_noise_commands_keep_register(o: APUNoiseOscillator, c: APUNoiseOscillatorCommand, after: APUNoiseOscillator)
    requires
        o.handled(c, after),
    ensures
        after.shift_register.sequence == o.shift_register.sequence,
{
}


/// The noise shift register's step is one-to-one on 15-bit values, in either
/// mode: no two register values step to the same one.
pub proof fn lemma_noise_step_injective(v: u32, w: u32, mode: bool)
    requires
        v <= 0x7fff,
        w <= 0x7fff,
        noise_step(v, mode) == noise_step(w, mode),
    ensures
        v == w,
{
    let k: u32 = if mode {
        6
    } else {
        1
    };
    assert(v == w) by (bit_vector)
        requires
            v <= 0x7fff,
            w <= 0x7fff,
            k == 6 || k == 1,
            ((v >> 1u32) | ((((v & 1) ^ ((v & (1u32 << k)) >> k))) << 14u32)) == ((w >> 1u32) | ((((w & 1)
                ^ ((w & (1u32 << k)) >> k))) << 14u32)),
    ;
}


/// The noise shift register, loaded with a nonzero 15-bit value, holds one
/// through any number of CPU cycles.
pub proof fn lemma_noise_clocks_nonzero(s: APUSequencer, mode: bool, n: nat)
    requires
        1 <= s.sequence <= 0x7fff,
    ensures
        1 <= noise_clocks(s, mode, n).sequence <= 0x7fff,
    decreases n,
{
    if n > 0 {
        lemma_noise_clocks_nonzero(s, mode, (n - 1) as nat);
        let p = noise_clocks(s, mode, (n - 1) as nat);
        lemma_noise_step_nonzero(p.sequence, mode);
    }
}

} // verus!
