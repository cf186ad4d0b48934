use vstd::prelude::*;

use std::time::Duration;

use super::registers::APUSequencerMode;

verus! {

/// A span of CPU cycles, `start` included and `end` excluded.
#[derive(Debug, Clone, Copy, PartialEq, Eq, Structural)]
pub struct CycleCountRange {
    pub start: u64,
    pub end: u64,
}

impl CycleCountRange {
    /// Both ends taken modulo `rhs`.
    pub fn rem(self, rhs: u64) -> (r: CycleCountRange)
        requires
            rhs > 0,
        ensures
            r == (CycleCountRange { start: self.start % rhs, end: self.end % rhs }),
    {
        CycleCountRange { start: self.start % rhs, end: self.end % rhs }
    }

    /// Whether cycle `other` falls in the span.
    pub fn eq(&self, other: &u64) -> (r: bool)
        ensures
            r == (self.start <= *other && *other < self.end),
    {
        self.start <= *other && *other < self.end
    }
}

/// The frame sequencer's view of a span of CPU cycles.
#[derive(Debug, Clone, Copy, PartialEq, Eq, Structural)]
pub struct APUTimerInstant {
    pub cycle_count: CycleCountRange,
    pub sequencer_mode: APUSequencerMode,
}

/// The length of a frame in CPU cycles, by sequencer mode.
pub open spec fn frame_cycles(mode: APUSequencerMode) -> u64 {
    match mode {
        APUSequencerMode::FourStep => 14917,
        APUSequencerMode::FiveStep => 18642,
    }
}

/// Whether a span holds cycle `c`.
pub open spec fn holds(r: CycleCountRange, c: u64) -> bool {
    r.start <= c && c < r.end
}

impl APUTimerInstant {
    /// The span taken within its frame.
    pub open spec fn normalized(self) -> APUTimerInstant {
        let n = frame_cycles(self.sequencer_mode);
        APUTimerInstant {
            cycle_count: CycleCountRange {
                start: self.cycle_count.start % n,
                end: self.cycle_count.end % n,
            },
            ..self
        }
    }

    /// Whether the span holds a half-frame clock (the middle and the end of the frame).
    pub open spec fn half_frame(self) -> bool {
        holds(self.cycle_count, 7457) || holds(
            self.cycle_count,
            (frame_cycles(self.sequencer_mode) - 1) as u64,
        )
    }

    /// Whether the span holds a quarter-frame clock.
    pub open spec fn quarter_frame(self) -> bool {
        holds(self.cycle_count, 3729) || holds(self.cycle_count, 7457) || holds(
            self.cycle_count,
            11186,
        ) || holds(self.cycle_count, (frame_cycles(self.sequencer_mode) - 1) as u64)
    }

    pub fn cycles_per_frame(&self) -> (r: u64)
        ensures
            r == frame_cycles(self.sequencer_mode),
    {
        match self.sequencer_mode {
            APUSequencerMode::FourStep => 14917,
            APUSequencerMode::FiveStep => 18642,
        }
    }

    /// The span taken within its frame.
    pub fn frame_normalized(&self) -> (r: APUTimerInstant)
        ensures
            r == self.normalized(),
    {
        let cycles_per_frame = self.cycles_per_frame();
        APUTimerInstant {
            cycle_count: self.cycle_count.rem(cycles_per_frame),
            sequencer_mode: self.sequencer_mode,
        }
    }

    pub fn is_half_frame(&self) -> (r: bool)
        ensures
            r == self.half_frame(),
    {
        self.cycle_count.eq(&7457) || self.cycle_count.eq(&(self.cycles_per_frame() - 1))
    }

    pub fn is_quarter_frame(&self) -> (r: bool)
        ensures
            r == self.quarter_frame(),
    {
        self.cycle_count.eq(&3729) || self.cycle_count.eq(&7457) || self.cycle_count.eq(&11186)
            || self.cycle_count.eq(&(self.cycles_per_frame() - 1))
    }
}

/// A sample clock for an oscillator: how many samples it has produced, the
/// time of the last one, and the frame sequencer mode it follows.
#[derive(Debug, Clone, Copy)]
pub struct APUOscillatorTimer {
    pub prev_sample_count: u64,
    pub sample_count: u64,
    pub timestamp: Duration,
    pub sequencer_mode: APUSequencerMode,
}

/// The zero-length duration (`Duration::default`).
#[verifier::external_body]
fn zero_duration() -> Duration {
    Duration::default()
}

impl APUOscillatorTimer {
    /// A clock at sample zero, time zero, in four-step mode.
    pub fn new() -> (r: APUOscillatorTimer)
        ensures
            r.prev_sample_count == 0,
            r.sample_count == 0,
            r.sequencer_mode == APUSequencerMode::FourStep,
    {
        APUOscillatorTimer {
            prev_sample_count: 0,
            sample_count: 0,
            timestamp: zero_duration(),
            sequencer_mode: APUSequencerMode::FourStep,
        }
    }

    /// Counts one sample, produced at `timestamp`.
    pub fn tick(&mut self, timestamp: Duration)
        ensures
            final(self).prev_sample_count == old(self).sample_count,
            final(self).sample_count == (old(self).sample_count + 1) % 0x1_0000_0000_0000_0000,
            final(self).timestamp == timestamp,
            final(self).sequencer_mode == old(self).sequencer_mode,
    {
        self.prev_sample_count = self.sample_count;
        self.sample_count = if self.sample_count == u64::MAX {
            0
        } else {
            self.sample_count + 1
        };
        self.timestamp = timestamp;
    }
}

} // verus!
