use vstd::prelude::*;

verus! {

/// The length a load index selects (the console's 32-entry length table).
pub open spec fn length_table(i: u8) -> u8 {
    if i == 0 {
        10
    } else if i == 1 {
        254
    } else if i == 2 {
        20
    } else if i == 3 {
        2
    } else if i == 4 {
        40
    } else if i == 5 {
        4
    } else if i == 6 {
        80
    } else if i == 7 {
        6
    } else if i == 8 {
        160
    } else if i == 9 {
        8
    } else if i == 10 {
        60
    } else if i == 11 {
        10
    } else if i == 12 {
        14
    } else if i == 13 {
        12
    } else if i == 14 {
        26
    } else if i == 15 {
        14
    } else if i == 16 {
        12
    } else if i == 17 {
        16
    } else if i == 18 {
        24
    } else if i == 19 {
        18
    } else if i == 20 {
        48
    } else if i == 21 {
        20
    } else if i == 22 {
        96
    } else if i == 23 {
        22
    } else if i == 24 {
        192
    } else if i == 25 {
        24
    } else if i == 26 {
        72
    } else if i == 27 {
        26
    } else if i == 28 {
        16
    } else if i == 29 {
        28
    } else if i == 30 {
        32
    } else {
        30
    }
}

/// A channel's length counter: it counts down on half frames unless halted,
/// and silences the channel at zero.
#[derive(Debug, Clone, Copy, PartialEq, Eq, Structural)]
pub struct APULengthCounter {
    pub counter: u8,
    pub enable: bool,
    pub halt: bool,
}

impl APULengthCounter {
    /// The counter after one half-frame clock: cleared when disabled, one less
    /// when running and not halted.
    pub open spec fn tick_spec(self) -> APULengthCounter {
        if !self.enable {
            APULengthCounter { counter: 0, ..self }
        } else if self.counter > 0 && !self.halt {
            APULengthCounter { counter: (self.counter - 1) as u8, ..self }
        } else {
            self
        }
    }

    pub fn new() -> (r: APULengthCounter)
        ensures
            r == (APULengthCounter { counter: 0, enable: true, halt: false }),
    {
        APULengthCounter { counter: 0, enable: true, halt: false }
    }

    /// Clocks the counter; returns its new value.
    pub fn tick(&mut self) -> (r: u8)
        ensures
            *final(self) == old(self).tick_spec(),
            r == final(self).counter,
    {
        if !self.enable {
            self.counter = 0;
        } else if self.counter > 0 && !self.halt {
            self.counter = self.counter - 1;
        }
        self.counter
    }

    /// Loads the counter from the length table.
    pub fn load_length(&mut self, length_index: u8)
        ensures
            *final(self) == (APULengthCounter { counter: length_table(length_index), ..*old(self) }),
    {
        self.counter = match length_index {
            0x00 => 10,
            0x01 => 254,
            0x02 => 20,
            0x03 => 2,
            0x04 => 40,
            0x05 => 4,
            0x06 => 80,
            0x07 => 6,
            0x08 => 160,
            0x09 => 8,
            0x0a => 60,
            0x0b => 10,
            0x0c => 14,
            0x0d => 12,
            0x0e => 26,
            0x0f => 14,
            0x10 => 12,
            0x11 => 16,
            0x12 => 24,
            0x13 => 18,
            0x14 => 48,
            0x15 => 20,
            0x16 => 96,
            0x17 => 22,
            0x18 => 192,
            0x19 => 24,
            0x1a => 72,
            0x1b => 26,
            0x1c => 16,
            0x1d => 28,
            0x1e => 32,
            _ => 30,
        };
    }

    /// Silences the counter, as disabling its channel does.
    pub fn reset(&mut self)
        ensures
            *final(self) == (APULengthCounter { counter: 0, ..*old(self) }),
    {
        self.counter = 0;
    }
}

} // verus!
