use vstd::prelude::*;

use super::channel::APUChannel;
use super::channel_state::{APUState, APUSynthCommand};
use super::noise::APUNoiseChannel;
use super::pulse::APUPulseChannel;
use super::registers::{
    flag, sequencer_mode_from, APUFrameCounterRegister, APUNoiseControlRegister,
    APUNoiseLengthCounterLoadRegister, APUNoiseModePeriodRegister, APUPulseControlRegister,
    APUPulseSweepRegister, APUSequencerMode, APUStatusRegister, APUTriangleControlRegister,
};
use super::timing::{frame_cycles, holds, APUTimerInstant, CycleCountRange};

verus! {

/// The audio processing unit's registers and channels, and what it last told
/// the synthesizer.
#[derive(Debug, Clone, Copy, PartialEq, Eq, Structural)]
pub struct APU {
    pub pulse1: APUPulseChannel,
    pub pulse2: APUPulseChannel,
    pub triangle: super::triangle::APUTriangleChannel,
    pub noise: APUNoiseChannel,
    pub status: APUStatusRegister,
    pub frame_counter: APUFrameCounterRegister,
    pub prev_state: Option<APUState>,
    pub prev_cpu_cycle_count: u64,
}

/// The bit pattern of a flag.
pub open spec fn bit_value(b: bool, weight: u8) -> u8 {
    if b {
        weight
    } else {
        0
    }
}

impl APU {
    pub open spec fn new_spec() -> APU {
        APU {
            pulse1: APUPulseChannel::new_spec(),
            pulse2: APUPulseChannel::new_spec(),
            triangle: super::triangle::APUTriangleChannel::new_spec(),
            noise: APUNoiseChannel::new_spec(),
            status: APUStatusRegister(0),
            frame_counter: APUFrameCounterRegister(0),
            prev_state: None,
            prev_cpu_cycle_count: 0,
        }
    }

    /// The APU after its state is captured: the pulse channels' frame-counter
    /// events are reported.
    pub open spec fn after_capture(self) -> APU {
        APU { pulse1: self.pulse1.after_capture(), pulse2: self.pulse2.after_capture(), ..self }
    }

    /// What a read of $4015 yields: which channels are playing (bits 0-3) and
    /// the frame interrupt flag (bit 6). Other addresses are open bus.
    pub open spec fn read_spec(self, addr: u16) -> Option<u8> {
        if addr == 0x4015 {
            Some(
                (bit_value(self.pulse1.playing_spec(), 1) + bit_value(self.pulse2.playing_spec(), 2)
                    + bit_value(self.triangle.playing_spec(), 4) + bit_value(
                    self.noise.playing_spec(),
                    8,
                ) + bit_value(flag(self.status.0, 6), 64)) as u8,
            )
        } else {
            None
        }
    }

    /// The APU after a status write: the register, and each channel enabled or
    /// disabled by its bit.
    pub open spec fn write_status_spec(self, value: APUStatusRegister) -> APU {
        let v = value.0;
        APU {
            status: value,
            pulse1: self.pulse1.write_enabled_spec(flag(v, 0)),
            pulse2: self.pulse2.write_enabled_spec(flag(v, 1)),
            triangle: super::triangle::APUTriangleChannel { enabled: flag(v, 2), ..self.triangle },
            noise: APUNoiseChannel { enabled: flag(v, 3), ..self.noise },
            ..self
        }
    }

    /// The APU after a frame counter write: the register, and each channel told
    /// the sequencer mode.
    pub open spec fn write_frame_counter_spec(self, value: APUFrameCounterRegister) -> APU {
        let mode = sequencer_mode_from(value.0 >> 7u8);
        APU {
            frame_counter: value,
            pulse1: self.pulse1.write_frame_counter_spec(value),
            pulse2: self.pulse2.write_frame_counter_spec(value),
            triangle: super::triangle::APUTriangleChannel { sequencer_mode: mode, ..self.triangle },
            noise: APUNoiseChannel { sequencer_mode: mode, ..self.noise },
            ..self
        }
    }

    /// The APU after a CPU write to one of its registers ($4000-$4017).
    pub open spec fn write_spec(self, addr: u16, value: u8) -> APU {
        if addr == 0x4000 {
            APU { pulse1: self.pulse1.write_control_spec(APUPulseControlRegister(value)), ..self }
        } else if addr == 0x4001 {
            APU { pulse1: APUPulseChannel { sweep: APUPulseSweepRegister(value), ..self.pulse1 }, ..self }
        } else if addr == 0x4002 {
            APU { pulse1: self.pulse1.write_timer_byte_spec(value, false), ..self }
        } else if addr == 0x4003 {
            APU { pulse1: self.pulse1.write_timer_byte_spec(value, true), ..self }
        } else if addr == 0x4004 {
            APU { pulse2: self.pulse2.write_control_spec(APUPulseControlRegister(value)), ..self }
        } else if addr == 0x4005 {
            APU { pulse2: APUPulseChannel { sweep: APUPulseSweepRegister(value), ..self.pulse2 }, ..self }
        } else if addr == 0x4006 {
            APU { pulse2: self.pulse2.write_timer_byte_spec(value, false), ..self }
        } else if addr == 0x4007 {
            APU { pulse2: self.pulse2.write_timer_byte_spec(value, true), ..self }
        } else if addr == 0x4008 {
            APU {
                triangle: super::triangle::APUTriangleChannel {
                    control: APUTriangleControlRegister(value),
                    ..self.triangle
                },
                ..self
            }
        } else if addr == 0x400a {
            APU { triangle: self.triangle.write_timer_byte_spec(value, false), ..self }
        } else if addr == 0x400b {
            APU { triangle: self.triangle.write_timer_byte_spec(value, true), ..self }
        } else if addr == 0x400c {
            APU { noise: APUNoiseChannel { control: APUNoiseControlRegister(value), ..self.noise }, ..self }
        } else if addr == 0x400e {
            APU {
                noise: APUNoiseChannel { mode_period: APUNoiseModePeriodRegister(value), ..self.noise },
                ..self
            }
        } else if addr == 0x400f {
            APU { noise: APUNoiseChannel { length_counter_load: value >> 3u8, ..self.noise }, ..self }
        } else if addr == 0x4015 {
            self.write_status_spec(APUStatusRegister(value))
        } else if addr == 0x4017 {
            self.write_frame_counter_spec(APUFrameCounterRegister(value))
        } else {
            self
        }
    }

    /// The frame sequencer's span since the last report, within its frame.
    pub open spec fn instant(self, cpu_cycle_count: u64) -> APUTimerInstant {
        APUTimerInstant {
            cycle_count: CycleCountRange { start: self.prev_cpu_cycle_count, end: cpu_cycle_count },
            sequencer_mode: sequencer_mode_from(self.frame_counter.0 >> 7u8),
        }.normalized()
    }

    /// One APU step at CPU cycle `cpu_cycle_count`: every sixth cycle the
    /// channels take the frame sequencer's clocks for the span since the last
    /// step, and the APU reports to the synthesizer, at that cycle, all commands
    /// (first report) or the commands that changed. Returns the new APU, whether
    /// a frame IRQ is raised (end of a four-step frame, interrupts not
    /// inhibited), and the commands.
    pub open spec fn tick_spec(self, cpu_cycle_count: u64) -> (APU, bool, Seq<APUSynthCommand>) {
        if cpu_cycle_count % 6 == 0 {
            let now = self.instant(cpu_cycle_count);
            let irq = holds(now.cycle_count, (frame_cycles(now.sequencer_mode) - 1) as u64)
                && now.sequencer_mode == APUSequencerMode::FourStep && !flag(self.frame_counter.0, 6);
            let ticked = APU {
                prev_cpu_cycle_count: cpu_cycle_count,
                pulse1: self.pulse1.tick_spec(now),
                pulse2: self.pulse2.tick_spec(now),
                triangle: self.triangle.tick_spec(now),
                noise: self.noise.tick_spec(now),
                ..self
            };
            let state = APUState::of(ticked);
            let commands = match self.prev_state {
                Some(prev) => prev.all_diff(state, cpu_cycle_count),
                None => state.all_commands(cpu_cycle_count),
            };
            (APU { prev_state: Some(state), ..ticked.after_capture() }, irq, commands)
        } else {
            (self, false, seq![])
        }
    }

    pub fn new() -> (r: APU)
        ensures
            r == APU::new_spec(),
    {
        APU {
            pulse1: APUPulseChannel::new(),
            pulse2: APUPulseChannel::new(),
            triangle: super::triangle::APUTriangleChannel::new(),
            noise: APUNoiseChannel::new(),
            status: APUStatusRegister(0),
            frame_counter: APUFrameCounterRegister(0),
            prev_state: None,
            prev_cpu_cycle_count: 0,
        }
    }

    /// Runs the APU at CPU cycle `cpu_cycle_count`; returns whether a frame IRQ
    /// is raised and the commands for the synthesizer.
    pub fn tick(apu: &mut APU, cpu_cycle_count: u64) -> (r: (bool, Vec<APUSynthCommand>))
        ensures
            (*final(apu), r.0, r.1@) == old(apu).tick_spec(cpu_cycle_count),
    {
        if cpu_cycle_count % 6 == 0 {
            let instant = APUTimerInstant {
                cycle_count: CycleCountRange { start: apu.prev_cpu_cycle_count, end: cpu_cycle_count },
                sequencer_mode: apu.frame_counter.sequencer_mode(),
            }.frame_normalized();
            apu.prev_cpu_cycle_count = cpu_cycle_count;
            let irq_set = instant.cycle_count.eq(&(instant.cycles_per_frame() - 1))
                && instant.sequencer_mode == APUSequencerMode::FourStep
                && !apu.frame_counter.interrupt_inhibit();
            apu.pulse1.tick(&instant);
            apu.pulse2.tick(&instant);
            apu.triangle.tick(&instant);
            apu.noise.tick(&instant);
            let new_state = APUState::capture(apu);
            let commands = match &apu.prev_state {
                Some(prev_state) => prev_state.diff_commands(&new_state, cpu_cycle_count),
                None => new_state.commands(cpu_cycle_count),
            };
            apu.prev_state = Some(new_state);
            (irq_set, commands)
        } else {
            (false, Vec::new())
        }
    }

    pub fn write_status_byte(&mut self, value: APUStatusRegister)
        ensures
            *final(self) == old(self).write_status_spec(value),
    {
        self.status = value;
        self.pulse1.write_enabled(value.pulse1_enable());
        self.pulse2.write_enabled(value.pulse2_enable());
        self.triangle.write_enabled(value.triangle_enable());
        self.noise.write_enabled(value.noise_enable());
    }

    pub fn write_frame_counter_byte(&mut self, value: APUFrameCounterRegister)
        ensures
            *final(self) == old(self).write_frame_counter_spec(value),
    {
        self.frame_counter = value;
        self.pulse1.write_frame_counter(value);
        self.pulse2.write_frame_counter(value);
        self.triangle.write_frame_counter(value);
        self.noise.write_frame_counter(value);
    }

    /// What a CPU read at `addr` yields.
    pub fn try_read_readonly(&self, addr: u16) -> (r: Option<u8>)
        ensures
            r == self.read_spec(addr),
    {
        if addr == 0x4015 {
            let p1: u8 = if self.pulse1.playing() {
                1
            } else {
                0
            };
            let p2: u8 = if self.pulse2.playing() {
                2
            } else {
                0
            };
            let t: u8 = if self.triangle.playing() {
                4
            } else {
                0
            };
            let n: u8 = if self.noise.playing() {
                8
            } else {
                0
            };
            let f: u8 = if self.status.frame_interrupt() {
                64
            } else {
                0
            };
            Some(p1 + p2 + t + n + f)
        } else {
            None
        }
    }

    /// Handles a CPU write to one of the APU's registers.
    pub fn write(&mut self, addr: u16, value: u8)
        ensures
            *final(self) == old(self).write_spec(addr, value),
    {
        if addr == 0x4000 {
            self.pulse1.write_control(APUPulseControlRegister(value));
        } else if addr == 0x4001 {
            self.pulse1.write_sweep(APUPulseSweepRegister(value));
        } else if addr == 0x4002 {
            self.pulse1.write_timer_byte(value, false);
        } else if addr == 0x4003 {
            self.pulse1.write_timer_byte(value, true);
        } else if addr == 0x4004 {
            self.pulse2.write_control(APUPulseControlRegister(value));
        } else if addr == 0x4005 {
            self.pulse2.write_sweep(APUPulseSweepRegister(value));
        } else if addr == 0x4006 {
            self.pulse2.write_timer_byte(value, false);
        } else if addr == 0x4007 {
            self.pulse2.write_timer_byte(value, true);
        } else if addr == 0x4008 {
            self.triangle.write_control(APUTriangleControlRegister(value));
        } else if addr == 0x400a {
            self.triangle.write_timer_byte(value, false);
        } else if addr == 0x400b {
            self.triangle.write_timer_byte(value, true);
        } else if addr == 0x400c {
            self.noise.write_control(APUNoiseControlRegister(value));
        } else if addr == 0x400e {
            self.noise.write_mode_period(APUNoiseModePeriodRegister(value));
        } else if addr == 0x400f {
            self.noise.write_length_counter_load(APUNoiseLengthCounterLoadRegister(value));
        } else if addr == 0x4015 {
            self.write_status_byte(APUStatusRegister(value));
        } else if addr == 0x4017 {
            self.write_frame_counter_byte(APUFrameCounterRegister(value));
        }
    }
}

/// The frame IRQ is never raised: the last cycle of a frame cannot fall inside
/// a span whose end is taken modulo the frame length.
pub proof fn lemma_frame_irq_never_raised(apu: APU, cpu_cycle_count: u64)
    ensures
        !apu.tick_spec(cpu_cycle_count).1,
{
    let now = apu.instant(cpu_cycle_count);
    let n = frame_cycles(now.sequencer_mode);
    assert(now.cycle_count.end < n);
}

} // verus!
