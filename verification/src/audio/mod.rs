pub mod oscillator;
pub mod synth;
