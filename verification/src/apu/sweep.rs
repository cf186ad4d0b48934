use vstd::prelude::*;

use super::registers::{with_timer_spec, APUTimerRegister};

verus! {

/// A pulse channel's sweep unit: every few half frames it moves the channel's
/// period up or down by a shifted copy of itself.
#[derive(Debug, Clone, Copy, PartialEq, Eq, Structural)]
pub struct APUSweep {
    pub enabled: bool,
    pub shift_count: u8,
    pub negate: bool,
    pub output: APUTimerRegister,
    pub ones_complement_negate: bool,
    pub divider_period: u8,
    pub divider: u8,
    pub reload_flag: bool,
}

/// The period the sweep aims for: the period plus or minus the period shifted
/// right, minus one more in ones'-complement negation (the first pulse channel).
pub open spec fn sweep_target(t: u16, shift: u8, negate: bool, ones_complement: bool) -> int {
    let change = (t >> (shift as u16)) as int;
    t as int + if negate {
        if ones_complement {
            -change - 1
        } else {
            -change
        }
    } else {
        change
    }
}

impl APUSweep {
    /// The sweep after one half-frame clock against the channel's timer. With
    /// its divider at zero, an enabled sweep whose target is in range (period at
    /// least 8, target at most 0x7ff) sets the output period to the target;
    /// otherwise a divider at zero, or a pending reload, reloads the divider and
    /// passes the timer through; otherwise the divider counts down.
    pub open spec fn tick_spec(self, timer: APUTimerRegister) -> APUSweep {
        let t = timer.0 & 0x7ff;
        let target = sweep_target(t, self.shift_count, self.negate, self.ones_complement_negate);
        let mute = t < 8 || target > 0x7ff;
        if self.divider == 0 && self.enabled && !mute {
            APUSweep {
                output: APUTimerRegister(
                    with_timer_spec(
                        timer.0,
                        if target < 0 {
                            0u16
                        } else {
                            target as u16
                        },
                    ),
                ),
                ..self
            }
        } else if self.divider == 0 || self.reload_flag {
            APUSweep { divider: self.divider_period, reload_flag: false, output: timer, ..self }
        } else {
            APUSweep { divider: (self.divider - 1) as u8, ..self }
        }
    }

    pub fn new(ones_complement_negate: bool) -> (r: APUSweep)
        ensures
            r == (APUSweep {
                enabled: false,
                shift_count: 0,
                negate: false,
                output: APUTimerRegister(0),
                ones_complement_negate,
                divider_period: 0,
                divider: 0,
                reload_flag: false,
            }),
    {
        APUSweep {
            enabled: false,
            shift_count: 0,
            negate: false,
            output: APUTimerRegister(0),
            ones_complement_negate,
            divider_period: 0,
            divider: 0,
            reload_flag: false,
        }
    }

    /// Clocks the sweep against the channel's timer.
    pub fn tick(&mut self, timer: &APUTimerRegister)
        requires
            old(self).shift_count < 16,
        ensures
            *final(self) == old(self).tick_spec(*timer),
    {
        let t = timer.timer();
        let raw = timer.0;
        assert(t <= 0x7ff) by (bit_vector)
            requires
                t == raw & 0x7ff,
        ;
        let sc: u16 = self.shift_count as u16;
        let shifted: u16 = t >> sc;
        assert(shifted <= t) by (bit_vector)
            requires
                shifted == t >> sc,
                sc < 16,
        ;
        let change: i32 = shifted as i32;
        let change = if self.negate {
            if self.ones_complement_negate {
                -change - 1
            } else {
                -change
            }
        } else {
            change
        };
        let target: i32 = t as i32 + change;
        let mute = t < 8 || target > 0x7ff;
        if self.divider == 0 && self.enabled && !mute {
            let clamped: u16 = if target < 0 {
                0
            } else {
                target as u16
            };
            self.output = timer.with_timer(clamped);
        } else if self.divider == 0 || self.reload_flag {
            self.divider = self.divider_period;
            self.reload_flag = false;
            self.output = *timer;
        } else {
            self.divider = self.divider - 1;
        }
    }
}

} // verus!
