use vstd::prelude::*;

use super::oscillators::APUPulseOscillator;
use super::pulse::APUPulseOscillatorCommand;
use super::registers::{duty_sequence, APUPulseControlRegister};

verus! {

/// How many of the eight steps of a waveform byte are high (its set bits).
pub open spec fn high_steps(s: u8) -> int {
    s as int % 2 + (s as int / 2) % 2 + (s as int / 4) % 2 + (s as int / 8) % 2 + (s as int / 16) % 2
        + (s as int / 32) % 2 + (s as int / 64) % 2 + (s as int / 128) % 2
}

/// The share of a period, in eighths, that a pulse is high at each duty
/// setting: 12.5%, 25%, 50% and 75%.
pub open spec fn duty_eighths(duty: u8) -> int {
    if duty == 0 {
        1
    } else if duty == 1 {
        2
    } else if duty == 2 {
        4
    } else {
        6
    }
}

/// The pulse waveform of each duty setting is high for exactly its share of
/// the eight steps (one, two, four and six steps for settings 0 to 3), and
/// distinct settings give distinct waveforms.
pub proof fn lemma_duty_waveforms(d1: u8, d2: u8)
    requires
        d1 < 4,
        d2 < 4,
    ensures
        high_steps(duty_sequence(d1)) == duty_eighths(d1),
        d1 != d2 ==> duty_sequence(d1) != duty_sequence(d2),
{
}

/// The duty field of every pulse control value (bits 6-7) selects a waveform
/// that is high for that setting's share of the eight steps.
pub proof fn lemma_control_duty_waveform(v: u8)
    ensures
        (v >> 6u8) < 4,
        high_steps(duty_sequence(APUPulseControlRegister(v).0 >> 6u8)) == duty_eighths(v >> 6u8),
{
    assert((v >> 6u8) < 4) by (bit_vector);
    lemma_duty_waveforms(v >> 6u8, v >> 6u8);
}

/// After a control write, a pulse oscillator keeps the written duty setting and
/// its sequencer holds an eight-step waveform that is high for exactly that
/// setting's share of the steps: a write of $30 (duty 0) gives one high step.
pub proof fn lemma_pulse_control_write_duty(s: APUPulseOscillator, v: u8, after: APUPulseOscillator)
    requires
        s.handled(APUPulseOscillatorCommand::WriteControl(APUPulseControlRegister(v)), after),
    ensures
        after.duty_cycle == v >> 6u8,
        after.sequencer.sequence < 256,
        high_steps(after.sequencer.sequence as u8) == duty_eighths(v >> 6u8),
{
    lemma_control_duty_waveform(v);
}

} // verus!
