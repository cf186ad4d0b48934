use nesemu::bus::Bus;
use nesemu::emulator::{EmulationInboundMessage, EmulationOutboundMessage, EmulatorState, NESEmulatorBuilder};
use nesemu::memory::Memory;
use nesemu::cpu::operand::Operand;
use nesemu::nes::controller::{Controller, ControllerButton};
use nesemu::nes::ines_rom::INESRom;

fn rom() -> INESRom {
    // LDA #$01; STA $4016; LDA #$00; STA $4016 (poll the controller); loop: JMP loop
    let program: &[u8] = &[0xa9, 0x01, 0x8d, 0x16, 0x40, 0xa9, 0x00, 0x8d, 0x16, 0x40, 0x4c, 0x0a, 0x80];
    let mut data = vec![0x4e, 0x45, 0x53, 0x1a, 1, 1, 0, 0, 0, 0, 0, 0, 0, 0, 0, 0];
    let mut prg = vec![0xeau8; 16384];
    prg[..program.len()].copy_from_slice(program);
    prg[0x3ffc] = 0x00;
    prg[0x3ffd] = 0x80;
    data.extend(prg);
    data.extend(vec![0u8; 8192]);
    INESRom::from_reader(&data).unwrap()
}

#[test]
fn paused_emulator_only_takes_messages() {
    let mut emulator = NESEmulatorBuilder::new(rom()).build(false);
    let mut pix = vec![0u8; 256 * 240 * 4];
    let messages = vec![
        EmulationInboundMessage::EmulatorStateChangeRequested(EmulatorState::Pause),
        EmulationInboundMessage::ControllerButtonChanged(ControllerButton::A, true),
    ];
    let out = emulator.run_once(&messages, &mut pix).unwrap();
    assert!(out.outbound.is_empty());
    assert_eq!(emulator.state, EmulatorState::Pause);
    assert_eq!(emulator.machine.state.cpu_cycle_count, 0);
    assert!(emulator.machine.state.bus.controllers[0].state.a);
}

#[test]
fn running_emulator_reports_each_frame() {
    let mut emulator = NESEmulatorBuilder::new(rom()).build(false);
    let mut pix = vec![0u8; 256 * 240 * 4];
    // the machine powers on at the end of a frame: the first frame is one tick
    let first = emulator.run_once(&vec![], &mut pix).unwrap();
    assert_eq!(emulator.machine.state.ppu_cycle_count, 1);
    assert!(first.commands.is_empty());
    let out = emulator.run_once(&vec![], &mut pix).unwrap();
    assert_eq!(emulator.machine.state.ppu_cycle_count, 1 + 262 * 341);
    assert_eq!(out.outbound.len(), 2);
    match out.outbound[0] {
        EmulationOutboundMessage::MachineStateChanged(ms) => {
            assert_eq!(ms.emulator_state, EmulatorState::Run);
            assert_eq!((ms.cycle, ms.scanline), (1, -1));
        },
        _ => panic!("expected the machine state first"),
    }
    assert!(matches!(out.outbound[1], EmulationOutboundMessage::FrameReady));
    assert_eq!(emulator.state, EmulatorState::Run);
    assert!(!out.commands.is_empty());
}

#[test]
fn single_frame_and_single_instruction_steps_pause_afterwards() {
    let mut emulator = NESEmulatorBuilder::new(rom()).build(true);
    let mut pix = vec![0u8; 256 * 240 * 4];
    emulator.run_once(&vec![], &mut pix).unwrap();
    let frame = vec![EmulationInboundMessage::EmulatorStateChangeRequested(EmulatorState::RunUntilNextFrame)];
    let out = emulator.run_once(&frame, &mut pix).unwrap();
    assert_eq!(out.outbound.len(), 2);
    assert_eq!(emulator.state, EmulatorState::Pause);
    assert!(!out.trace_lines.is_empty());
    let before = emulator.machine.state.cpu_cycle_count;
    let step = vec![EmulationInboundMessage::EmulatorStateChangeRequested(EmulatorState::RunUntilNextInstruction)];
    emulator.run_once(&step, &mut pix).unwrap();
    assert_eq!(emulator.machine.state.cpu_cycle_count, before + 1);
    assert_eq!(emulator.state, EmulatorState::Pause);
}

#[test]
fn controller_reports_buttons_in_order() {
    let mut emulator = NESEmulatorBuilder::new(rom()).build(false);
    let mut pix = vec![0u8; 256 * 240 * 4];
    let messages = vec![
        EmulationInboundMessage::ControllerButtonChanged(ControllerButton::A, true),
        EmulationInboundMessage::ControllerButtonChanged(ControllerButton::Start, true),
        EmulationInboundMessage::ControllerButtonChanged(ControllerButton::Right, true),
    ];
    emulator.run_once(&messages, &mut pix).unwrap();
    emulator.run_once(&vec![], &mut pix).unwrap();
    // the program has polled the controller; read its eight bits
    let bus = &mut emulator.machine.state.bus;
    let bits: Vec<u8> = (0..8).map(|_| bus.read(0x4016)).collect();
    // A, B, Select, Start, Up, Down, Left, Right
    assert_eq!(bits, vec![1, 0, 0, 1, 0, 0, 0, 1]);
}

#[test]
fn controller_shift_register_shifts_on_reads() {
    let mut c = Controller::new();
    c.set_button_state(ControllerButton::B, true);
    c.poll();
    assert_eq!(c.read_readonly(), 0);
    assert_eq!(c.read(), 0);
    assert_eq!(c.read(), 1);
    assert_eq!(c.state.to_byte(), 0b0100_0000);
}

#[test]
fn flat_memory_reads_back_writes() {
    let mut m = Memory::new();
    m.set(&Operand::Absolute(0x0123), 7);
    assert_eq!(m.get(&Operand::Absolute(0x0923)), 7);
    m.set(&Operand::Absolute(0x2009), 9);
    assert_eq!(m.get(&Operand::Absolute(0x2001)), 9);
    m.set(&Operand::Absolute(0x4017), 3);
    assert_eq!(m.get(&Operand::Absolute(0x4017)), 3);
    m.set(&Operand::Absolute(0x5000), 3);
    assert_eq!(m.get(&Operand::Absolute(0x5000)), 0);
    assert_eq!(m.get(&Operand::Immediate(0x44)), 0x44);
}
