pub mod apu;
pub mod apu_synth;
pub mod channel;
pub mod channel_state;
pub mod duty;
pub mod envelope;
pub mod length_counter;
pub mod linear_counter;
pub mod noise;
pub mod oscillators;
pub mod pulse;
pub mod registers;
pub mod sequencer;
pub mod sweep;
pub mod timing;
pub mod triangle;
