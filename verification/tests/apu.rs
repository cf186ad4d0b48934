use nesemu::apu::apu::APU;
use nesemu::apu::apu_synth::{APUSynth, APUSynthChannel};
use nesemu::apu::channel_state::{APUChannelState, APUChannelStateTrait, APUOscillatorCommand, APUState};
use nesemu::apu::envelope::APUEnvelope;
use nesemu::apu::length_counter::APULengthCounter;
use nesemu::apu::linear_counter::APULinearCounter;
use nesemu::apu::noise::{APUNoiseChannelState, APUNoiseOscillatorCommand};
use nesemu::apu::oscillators::{noise_feedback, APUNoiseOscillator, APUPulseOscillator, APUTriangleOscillator};
use nesemu::apu::pulse::{APUPulseChannel, APUPulseChannelState, APUPulseOscillatorCommand};
use nesemu::apu::registers::{APUPulseControlRegister, APUPulseSweepRegister, APUSequencerMode, APUTimerRegister};
use nesemu::apu::sequencer::APUSequencer;
use nesemu::apu::sweep::APUSweep;
use nesemu::apu::timing::{APUTimerInstant, CycleCountRange};
use nesemu::apu::triangle::APUTriangleOscillatorCommand;
use nesemu::audio::synth::{take_due_commands, SynthCommand};

#[test]
fn length_table_values() {
    let mut lc = APULengthCounter::new();
    lc.load_length(0);
    assert_eq!(lc.counter, 10);
    lc.load_length(1);
    assert_eq!(lc.counter, 254);
    lc.load_length(0x1f);
    assert_eq!(lc.counter, 30);
    assert_eq!(lc.tick(), 29);
    lc.halt = true;
    assert_eq!(lc.tick(), 29);
    lc.enable = false;
    assert_eq!(lc.tick(), 0);
}

#[test]
fn envelope_restarts_at_fifteen_and_decays() {
    let mut e = APUEnvelope::new();
    e.volume = 1;
    e.start_flag = true;
    e.tick();
    assert_eq!((e.decay, e.divider, e.output), (15, 1, 15));
    e.tick();
    assert_eq!((e.decay, e.divider), (15, 0));
    e.tick();
    assert_eq!((e.decay, e.divider, e.output), (14, 1, 14));
    e.enabled = false;
    e.tick();
    assert_eq!(e.output, 1);
}

#[test]
fn envelope_loops_back_to_fifteen() {
    let mut e = APUEnvelope::new();
    e.loop_flag = true;
    e.tick();
    assert_eq!(e.decay, 15);
}

#[test]
fn linear_counter_reloads_while_the_flag_is_set() {
    let mut l = APULinearCounter::new();
    l.reload_value = 9;
    l.reload_flag = true;
    assert_eq!(l.tick(), 9);
    assert!(!l.reload_flag);
    l.counter = 3;
    assert_eq!(l.tick(), 3);
}

#[test]
fn sweep_moves_the_period() {
    let mut s = APUSweep::new(false);
    s.enabled = true;
    s.shift_count = 1;
    let timer = APUTimerRegister(0x100);
    s.tick(&timer);
    assert_eq!(s.output.timer(), 0x180);
    s.negate = true;
    s.tick(&timer);
    assert_eq!(s.output.timer(), 0x80);
    // the first channel negates in ones' complement: one less
    let mut s1 = APUSweep::new(true);
    s1.enabled = true;
    s1.shift_count = 1;
    s1.negate = true;
    s1.tick(&timer);
    assert_eq!(s1.output.timer(), 0x7f);
    // a period below 8 mutes the sweep: the divider reloads instead
    let mut s2 = APUSweep::new(false);
    s2.enabled = true;
    s2.divider_period = 3;
    s2.tick(&APUTimerRegister(5));
    assert_eq!(s2.divider, 3);
    assert_eq!(s2.output.timer(), 5);
    s2.tick(&APUTimerRegister(5));
    assert_eq!(s2.divider, 2);
}

#[test]
fn sequencer_steps_when_its_timer_runs_out() {
    let mut s = APUSequencer::new();
    s.reload = 2;
    s.sequence = 0b10;
    assert_eq!(s.tick(true, |v| v >> 1), 1);
    assert_eq!(s.timer, 3);
    assert_eq!(s.tick(true, |v| v >> 1), 1);
    assert_eq!(s.timer, 2);
    assert_eq!(s.tick(false, |v| v >> 1), 1);
    assert_eq!(s.timer, 2);
}

#[test]
fn frame_clocks_fall_at_the_quarter_and_half_frames() {
    let instant = APUTimerInstant {
        cycle_count: CycleCountRange { start: 14917 + 3725, end: 14917 + 3731 },
        sequencer_mode: APUSequencerMode::FourStep,
    }
    .frame_normalized();
    assert_eq!(instant.cycle_count.start, 3725);
    assert!(instant.is_quarter_frame());
    assert!(!instant.is_half_frame());
    let end = APUTimerInstant {
        cycle_count: CycleCountRange { start: 18640, end: 18642 },
        sequencer_mode: APUSequencerMode::FiveStep,
    };
    assert_eq!(end.cycles_per_frame(), 18642);
    assert!(end.is_half_frame());
}

#[test]
fn status_register_reports_playing_channels() {
    let mut apu = APU::new();
    assert_eq!(apu.try_read_readonly(0x4015), Some(0));
    assert_eq!(apu.try_read_readonly(0x4000), None);
    apu.write(0x4015, 0b0000_1111);
    apu.write(0x4003, 0b0000_1000); // length index 1 for pulse 1: 254
    assert_eq!(apu.pulse1.length_counter.counter, 254);
    assert_eq!(apu.try_read_readonly(0x4015), Some(0b0000_1101));
    apu.write(0x4015, 0);
    assert_eq!(apu.pulse1.length_counter.counter, 0);
    assert_eq!(apu.try_read_readonly(0x4015), Some(0));
}

#[test]
fn pulse_control_write_sets_the_envelope() {
    let mut p = APUPulseChannel::new();
    p.write_control(APUPulseControlRegister(0b1011_0101));
    assert_eq!(p.control.duty_cycle(), 2);
    assert_eq!(p.control.duty_cycle_sequence(), 0b0000_1111);
    assert!(p.length_counter.halt);
    assert!(!p.envelope.enabled);
    assert_eq!(p.envelope.volume, 5);
    assert_eq!(p.envelope.output, 5);
    p.write_timer_byte(0x34, false);
    p.write_timer_byte(0xfa, true);
    assert_eq!(p.timer.timer(), 0x234);
}

#[test]
fn first_report_sends_every_command_then_only_changes() {
    let mut apu = APU::new();
    let (irq, commands) = APU::tick(&mut apu, 6);
    assert!(!irq);
    assert_eq!(commands.len(), 7 + 7 + 5 + 6);
    assert_eq!(commands[0].time(), 6);
    assert_eq!(
        commands[0],
        SynthCommand::ChannelCommand(
            APUSynthChannel::Pulse1,
            APUOscillatorCommand::Pulse(APUPulseOscillatorCommand::SetEnabled(false)),
            6
        )
    );
    // nothing changed: nothing to send
    let (_, commands) = APU::tick(&mut apu, 12);
    assert!(commands.is_empty());
    // off the sixth cycle nothing happens
    let (_, commands) = APU::tick(&mut apu, 13);
    assert!(commands.is_empty());
    apu.write(0x4015, 0b0100);
    let (_, commands) = APU::tick(&mut apu, 18);
    assert_eq!(
        commands,
        vec![SynthCommand::ChannelCommand(
            APUSynthChannel::Triangle,
            APUOscillatorCommand::Triangle(APUTriangleOscillatorCommand::SetEnabled(true)),
            18
        )]
    );
}

#[test]
fn frame_irq_is_never_raised() {
    // the end-of-frame cycle never falls inside a span taken within its frame
    let mut apu = APU::new();
    let mut cycle = 0u64;
    while cycle <= 3 * 14917 {
        cycle += 6;
        assert!(!APU::tick(&mut apu, cycle).0);
    }
}

#[test]
fn five_step_mode_clocks_the_pulse_channels_at_once() {
    let mut apu = APU::new();
    apu.write(0x4015, 1);
    apu.write(0x4003, 0b0000_1000);
    apu.write(0x4017, 0x80);
    assert_eq!(apu.pulse1.length_counter.counter, 253);
    assert!(apu.pulse1.frame_counter_set);
    let state = APUState::capture(&mut apu);
    assert!(!apu.pulse1.frame_counter_set);
    let commands = state.commands(0);
    assert!(commands.iter().any(|c| matches!(
        c,
        SynthCommand::ChannelCommand(_, APUOscillatorCommand::Pulse(APUPulseOscillatorCommand::FrameCounterSet), _)
    )));
}

#[test]
fn channel_state_diff_reports_only_changes() {
    let mut apu = APU::new();
    let before = APUPulseChannelState::capture(&mut apu.pulse1);
    apu.pulse1.write_enabled(true);
    let after = APUPulseChannelState::capture(&mut apu.pulse1);
    assert!(APUChannelStateTrait::diff_commands(&before, &before).is_empty());
    assert_eq!(
        APUChannelStateTrait::diff_commands(&before, &after),
        vec![APUPulseOscillatorCommand::SetEnabled(true)]
    );
    let s = APUChannelState::capture(&mut apu, APUSynthChannel::Noise);
    assert_eq!(s.diff_commands(&s, 5).len(), 0);
    let noise = APUNoiseChannelState::capture(&apu.noise);
    assert_eq!(noise.shift_register_reload, 4);
    assert_eq!(noise.commands()[0], APUNoiseOscillatorCommand::SetShiftRegisterReload(4));
}

#[test]
fn oscillators_follow_their_commands() {
    let mut t = APUTriangleOscillator::new();
    t.handle_command(APUTriangleOscillatorCommand::WriteTimerRegister(APUTimerRegister(0xf9ab)));
    assert_eq!(t.sequencer.timer, 0x1ab);
    t.handle_command(APUTriangleOscillatorCommand::LoadLengthCounterByIndex(3));
    assert_eq!(t.length_counter.counter, 2);
    assert!(t.linear_counter.reload_flag);
    let mut n = APUNoiseOscillator::new();
    assert_eq!(n.shift_register.sequence, 1);
    n.handle_command(APUNoiseOscillatorCommand::SetEnvelopeParamsAndLengthCounterHalt(false, 7, true));
    assert_eq!(n.envelope.volume, 7);
    assert!(n.length_counter.halt);
    // feedback from bits 0 and 1 enters at bit 14
    assert_eq!(noise_feedback(1, false), 1 << 14);
    assert_eq!(noise_feedback(3, false), 1);
    assert_eq!(noise_feedback(0x41, true), 0x20);
}

#[test]
fn pulse_oscillator_follows_its_commands() {
    let mut p = APUPulseOscillator::new(true);
    assert_eq!(p.duty_cycle, 2);
    assert!(p.sweep.ones_complement_negate);
    // duty 1 (25%), halt, constant volume 9
    p.handle_command(APUPulseOscillatorCommand::WriteControl(APUPulseControlRegister(0b0111_1001)));
    assert_eq!(p.duty_cycle, 1);
    assert_eq!(p.sequencer.sequence, 0b0000_0011);
    assert!(p.length_counter.halt);
    assert!(p.envelope.loop_flag);
    assert!(!p.envelope.enabled);
    assert_eq!(p.envelope.volume, 9);
    // enabled, period 2, negate, shift 5
    p.handle_command(APUPulseOscillatorCommand::WriteSweep(APUPulseSweepRegister(0b1010_1101)));
    assert!(p.sweep.enabled);
    assert_eq!(p.sweep.divider_period, 2);
    assert!(p.sweep.negate);
    assert_eq!(p.sweep.shift_count, 5);
    assert!(p.sweep.reload_flag);
    p.handle_command(APUPulseOscillatorCommand::WriteTimerRegister(APUTimerRegister(0x0123)));
    assert_eq!(p.timer_register, APUTimerRegister(0x0123));
    p.handle_command(APUPulseOscillatorCommand::SetEnabled(true));
    p.handle_command(APUPulseOscillatorCommand::LoadLengthCounterByIndex(1));
    assert_eq!(p.length_counter.counter, 254);
    assert!(p.envelope.start_flag);
    // halted: the frame-counter clock keeps the length, restarts the envelope
    p.handle_command(APUPulseOscillatorCommand::FrameCounterSet);
    assert_eq!(p.length_counter.counter, 254);
    assert_eq!(p.envelope.decay, 15);
    assert!(!p.envelope.start_flag);
    // divider at zero: the sweep moves the period down by (0x123 >> 5) + 1
    assert_eq!(p.sweep.output, APUTimerRegister(0x0119));
    assert_eq!(p.sweep.divider, 0);
    assert!(p.sweep.reload_flag);
    p.handle_command(APUPulseOscillatorCommand::SetEnabled(false));
    assert!(!p.enabled);
    assert_eq!(p.length_counter.counter, 0);
    p.handle_command(APUPulseOscillatorCommand::SetAPUSequencerMode(APUSequencerMode::FiveStep));
    assert_eq!(p.timer.sequencer_mode, APUSequencerMode::FiveStep);
}

#[test]
fn synth_routes_commands_by_channel() {
    let mut synth = APUSynth::new();
    assert!(synth.pulse1.sweep.ones_complement_negate);
    assert!(!synth.pulse2.sweep.ones_complement_negate);
    synth.handle_command(SynthCommand::ChannelCommand(
        APUSynthChannel::Pulse2,
        APUOscillatorCommand::Pulse(APUPulseOscillatorCommand::SetEnabled(true)),
        0,
    ));
    assert!(synth.pulse2.enabled);
    assert!(!synth.pulse1.enabled);
    synth.handle_command(SynthCommand::ChannelCommand(
        APUSynthChannel::Triangle,
        APUOscillatorCommand::Triangle(APUTriangleOscillatorCommand::SetEnabled(true)),
        0,
    ));
    assert!(synth.triangle.enabled);
    // a pulse command sent to the noise channel is dropped
    synth.handle_command(SynthCommand::ChannelCommand(
        APUSynthChannel::Noise,
        APUOscillatorCommand::Pulse(APUPulseOscillatorCommand::SetEnabled(true)),
        0,
    ));
    assert!(!synth.noise.enabled);
    synth.handle_command(SynthCommand::ChannelCommand(
        APUSynthChannel::Noise,
        APUOscillatorCommand::Noise(APUNoiseOscillatorCommand::SetEnabled(true)),
        0,
    ));
    assert!(synth.noise.enabled);
}

#[test]
fn due_commands_leave_the_queue_in_order() {
    let cmd = |t: u64| SynthCommand::ChannelCommand(APUSynthChannel::Pulse1, 0u8, t);
    let mut queue = vec![cmd(3), cmd(5), cmd(5), cmd(9), cmd(4)];
    let due = take_due_commands(&mut queue, 5);
    assert_eq!(due, vec![cmd(3), cmd(5), cmd(5)]);
    assert_eq!(queue, vec![cmd(9), cmd(4)]);
    // nothing is due before the first command
    let due = take_due_commands(&mut queue, 8);
    assert!(due.is_empty());
    assert_eq!(queue.len(), 2);
    let due = take_due_commands(&mut queue, 100);
    assert_eq!(due.len(), 2);
    assert!(queue.is_empty());
}

#[test]
fn synth_follows_a_full_channel_report() {
    let st = APUPulseChannelState {
        control: APUPulseControlRegister(0b1100_0101),
        enabled: true,
        length_counter_load_index: 2,
        sequencer_mode: APUSequencerMode::FourStep,
        timer_register: APUTimerRegister(0x0234),
        sweep: APUPulseSweepRegister(0b0000_0011),
        frame_counter_set: false,
    };
    let mut p = APUPulseOscillator::new(false);
    for c in st.commands() {
        p.handle_command(c);
    }
    assert!(p.enabled);
    assert_eq!(p.duty_cycle, 3);
    assert_eq!(p.timer_register, APUTimerRegister(0x0234));
    assert_eq!(p.sweep.shift_count, 3);
    assert_eq!(p.length_counter.counter, 20);
}

#[test]
fn noise_register_never_locks_up() {
    for mode in [false, true] {
        let mut v = 1u32;
        for _ in 0..40000 {
            v = noise_feedback(v, mode);
            assert!(v >= 1 && v <= 0x7fff);
        }
    }
}

#[test]
fn frame_clocks_and_shift_register_clocks_on_the_oscillators() {
    let quarter = APUTimerInstant {
        cycle_count: CycleCountRange { start: 3729 + 14917, end: 3730 + 14917 },
        sequencer_mode: APUSequencerMode::FourStep,
    };
    let mut n = APUNoiseOscillator::new();
    n.handle_command(APUNoiseOscillatorCommand::LoadLengthCounterByIndex(1));
    n.clock_frame(&quarter);
    // a quarter frame restarts the envelope; the length counter waits for a half frame
    assert_eq!(n.envelope.decay, 15);
    assert_eq!(n.length_counter.counter, 254);
    let half = APUTimerInstant {
        cycle_count: CycleCountRange { start: 7457, end: 7458 },
        sequencer_mode: APUSequencerMode::FourStep,
    };
    n.clock_frame(&half);
    assert_eq!(n.length_counter.counter, 253);
    // timer 0, reload 0: steps on the first and third of three cycles
    n.clock_shift_register(&CycleCountRange { start: 10, end: 13 });
    assert_eq!(n.shift_register.sequence, noise_feedback(noise_feedback(1, false), false));
    let mut t = APUTriangleOscillator::new();
    t.handle_command(APUTriangleOscillatorCommand::LoadLengthCounterByIndex(1));
    t.clock_frame(&half);
    assert_eq!(t.length_counter.counter, 253);
    let mut p = APUPulseOscillator::new(false);
    p.handle_command(APUPulseOscillatorCommand::LoadLengthCounterByIndex(1));
    p.clock_frame(&half);
    assert_eq!(p.length_counter.counter, 253);
    assert_eq!(p.envelope.decay, 15);
}
