use vstd::prelude::*;

verus! {

/// The triangle channel's linear counter.
#[derive(Debug, Clone, Copy, PartialEq, Eq, Structural)]
pub struct APULinearCounter {
    pub counter: u8,
    pub reload_flag: bool,
    pub reload_value: u8,
    pub control_flag: bool,
}

impl APULinearCounter {
    /// The counter after one quarter-frame clock: reloaded when asked (the
    /// counter is otherwise left as it is); the reload request stays only while
    /// the control flag is set.
    pub open spec fn tick_spec(self) -> APULinearCounter {
        APULinearCounter {
            counter: if self.reload_flag {
                self.reload_value
            } else {
                self.counter
            },
            reload_flag: if !self.control_flag {
                false
            } else {
                self.reload_flag
            },
            ..self
        }
    }

    pub fn new() -> (r: APULinearCounter)
        ensures
            r == (APULinearCounter {
                counter: 0,
                reload_flag: false,
                reload_value: 0,
                control_flag: false,
            }),
    {
        APULinearCounter { counter: 0, reload_flag: false, reload_value: 0, control_flag: false }
    }

    /// Clocks the counter; returns its new value.
    pub fn tick(&mut self) -> (r: u8)
        ensures
            *final(self) == old(self).tick_spec(),
            r == final(self).counter,
    {
        if self.reload_flag {
            self.counter = self.reload_value;
        }
        if !self.control_flag {
            self.reload_flag = false;
        }
        self.counter
    }
}

} // verus!
