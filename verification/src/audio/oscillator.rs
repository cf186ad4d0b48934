use vstd::prelude::*;

verus! {

/// The wave shape an audio oscillator produces.
#[derive(Debug, Clone, Copy, PartialEq, Eq, Structural)]
pub enum Waveform {
    Sine,
    Square,
    Saw,
    Triangle,
}

} // verus!
