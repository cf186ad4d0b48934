use vstd::prelude::*;

verus! {

/// A byte-addressed bus as the CPU sees it, described through its model `Self::V`.
///
/// A read has two parts: the value that a read at an address yields, which does
/// not change the bus, and the side effects of the read (registers that clear or
/// shift when they are read). `read` performs both.
pub trait Bus: View + Sized {
    /// What a read at `addr` yields, or `None` for open bus.
    spec fn try_read_spec(m: Self::V, addr: u16) -> Option<u8>;

    /// The bus after the side effects of a read at `addr`.
    spec fn read_effect_spec(m: Self::V, addr: u16) -> Self::V;

    /// The bus after `value` is written at `addr`.
    spec fn write_spec(m: Self::V, addr: u16, value: u8) -> Self::V;

    fn try_read_readonly(&self, addr: u16) -> (r: Option<u8>)
        ensures
            r == Self::try_read_spec(self@, addr),
    ;

    fn read_side_effects(&mut self, addr: u16)
        ensures
            final(self)@ == Self::read_effect_spec(old(self)@, addr),
    ;

    fn write(&mut self, addr: u16, value: u8)
        ensures
            final(self)@ == Self::write_spec(old(self)@, addr, value),
    ;

    /// Reads without side effects; open bus reads as 0.
    fn read_readonly(&self, addr: u16) -> (r: u8)
        ensures
            r == (match Self::try_read_spec(self@, addr) {
                Some(v) => v,
                None => 0u8,
            }),
    {
        match self.try_read_readonly(addr) {
            Some(v) => v,
            None => 0,
        }
    }

    /// Reads with side effects; open bus reads as 0.
    fn read(&mut self, addr: u16) -> (r: u8)
        ensures
            r == (match Self::try_read_spec(old(self)@, addr) {
                Some(v) => v,
                None => 0u8,
            }),
            final(self)@ == Self::read_effect_spec(old(self)@, addr),
    {
        let result = self.try_read_readonly(addr);
        self.read_side_effects(addr);
        match result {
            Some(v) => v,
            None => 0,
        }
    }
}

/// The value a read at `addr` yields: the bus's byte, or 0 for open bus.
pub open spec fn peek<B: Bus>(b: B::V, addr: u16) -> u8 {
    match B::try_read_spec(b, addr) {
        Some(v) => v,
        None => 0,
    }
}

/// The value and the resulting bus of a read with side effects.
pub open spec fn read_spec<B: Bus>(b: B::V, addr: u16) -> (u8, B::V) {
    (peek::<B>(b, addr), B::read_effect_spec(b, addr))
}

} // verus!
