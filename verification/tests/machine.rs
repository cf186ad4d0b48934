use nesemu::bus::Bus;
use nesemu::cpu::cpu::CPUError;
use nesemu::cpu::instructions::Instruction;
use nesemu::cpu::operand::Operand;
use nesemu::nes::ines_rom::INESRom;
use nesemu::nes::nes::NES;

/// An NROM-128 image: `program` at 0x8000 (mirrored at 0xc000), the reset
/// vector pointing at `reset`, and 8 KiB of zeroed CHR ROM.
fn nrom_image(program: &[(u16, &[u8])], reset: u16) -> Vec<u8> {
    let mut data = vec![0x4e, 0x45, 0x53, 0x1a, 1, 1, 0, 0, 0, 0, 0, 0, 0, 0, 0, 0];
    let mut prg = vec![0xeau8; 16384];
    for (addr, bytes) in program {
        let start = (*addr as usize) & 0x3fff;
        prg[start..start + bytes.len()].copy_from_slice(bytes);
    }
    prg[0x3ffc] = (reset & 0xff) as u8;
    prg[0x3ffd] = (reset >> 8) as u8;
    data.extend(prg);
    data.extend(vec![0u8; 8192]);
    data
}

fn machine(program: &[(u16, &[u8])], reset: u16) -> NES {
    let data = nrom_image(program, reset);
    let rom = INESRom::from_reader(&data).unwrap();
    NES::from_rom(rom)
}

fn pixbuf() -> Vec<u8> {
    vec![0u8; 256 * 240 * 4]
}

#[test]
fn reset_reads_the_vector_and_clears_the_registers() {
    let nes = machine(&[], 0x8123);
    assert_eq!(nes.state.cpu.pc, 0x8123);
    assert_eq!(nes.state.cpu.s, 0xfd);
    assert_eq!(nes.state.cpu.a, 0);
    assert_eq!(nes.state.cpu.wait_cycles, 7);
    assert_eq!(nes.state.cpu.get_status_register(), 0x20);
    assert_eq!(nes.state.cpu_cycle_count, 0);
    assert_eq!(nes.state.ppu_cycle_count, 0);
}

#[test]
fn program_stores_into_work_ram() {
    // LDA #$42; STA $0200; LDX #$05; STX $0201; loop: JMP loop
    let program: &[u8] = &[0xa9, 0x42, 0x8d, 0x00, 0x02, 0xa2, 0x05, 0x8e, 0x01, 0x02, 0x4c, 0x0a, 0x80];
    let mut nes = machine(&[(0x8000, program)], 0x8000);
    let mut pix = pixbuf();
    for _ in 0..300 {
        nes.tick(&mut pix).unwrap();
    }
    assert_eq!(nes.state.bus.read_readonly(0x0200), 0x42);
    assert_eq!(nes.state.bus.read_readonly(0x0201), 0x05);
    // work RAM is mirrored every 2 KiB
    assert_eq!(nes.state.bus.read_readonly(0x0a00), 0x42);
    assert_eq!(nes.state.bus.read_readonly(0x1a01), 0x05);
    assert_eq!(nes.state.cpu.a, 0x42);
    assert_eq!(nes.state.cpu.x, 0x05);
}

#[test]
fn unknown_opcode_is_an_error() {
    // 0x02 is not an opcode the CPU knows
    let mut nes = machine(&[(0x8000, &[0x02])], 0x8000);
    let mut pix = pixbuf();
    let mut error = None;
    for _ in 0..100 {
        if let Err(e) = nes.tick(&mut pix) {
            error = Some(e);
            break;
        }
    }
    assert_eq!(error, Some(CPUError::UnknownOpcode(0x02)));
}

#[test]
fn trace_line_matches_the_reference_log_format() {
    let mut nes = machine(&[(0xc000, &[0x4c, 0xf5, 0xc5]), (0xc5f5, &[0xa2, 0x00])], 0xc000);
    nes.state.cpu.set_status_register(0x24);
    nes.trace_enabled = true;
    let mut pix = pixbuf();
    let mut lines: Vec<String> = Vec::new();
    while lines.len() < 2 {
        let out = nes.tick(&mut pix).unwrap();
        if let Some(line) = out.trace_line {
            lines.push(line);
        }
    }
    assert_eq!(
        lines[0],
        "C000  4C F5 C5  JMP $C5F5                       A:00 X:00 Y:00 P:24 SP:FD PPU:  0, 21 CYC:7"
    );
    assert_eq!(
        lines[1],
        "C5F5  A2 00     LDX #$00                        A:00 X:00 Y:00 P:24 SP:FD PPU:  0, 30 CYC:10"
    );
}

#[test]
fn no_trace_lines_when_tracing_is_off() {
    let mut nes = machine(&[], 0x8000);
    let mut pix = pixbuf();
    for _ in 0..100 {
        let out = nes.tick(&mut pix).unwrap();
        assert!(out.trace_line.is_none());
    }
}

#[test]
fn execute_frame_stops_at_the_end_of_a_frame() {
    let mut nes = machine(&[(0x8000, &[0x4c, 0x00, 0x80])], 0x8000);
    let mut pix = pixbuf();
    nes.execute_frame(&mut pix).unwrap();
    assert_eq!(nes.state.bus.ppu.cycle, 1);
    assert_eq!(nes.state.bus.ppu.scanline, -1);
    let before = nes.state.ppu_cycle_count;
    nes.execute_frame(&mut pix).unwrap();
    // a whole frame: 262 lines of 341 cycles
    assert_eq!(nes.state.ppu_cycle_count - before, 262 * 341);
}

#[test]
fn nmi_runs_the_handler_at_the_nmi_vector() {
    // reset: JMP $8000 loop; NMI handler at $8100: LDA #$99; STA $0300; RTI
    let mut data = nrom_image(&[(0x8000, &[0x4c, 0x00, 0x80]), (0x8100, &[0xa9, 0x99, 0x8d, 0x00, 0x03, 0x40])], 0x8000);
    // NMI vector at 0xfffa
    data[16 + 0x3ffa] = 0x00;
    data[16 + 0x3ffb] = 0x81;
    let mut nes = NES::from_rom(INESRom::from_reader(&data).unwrap());
    let mut pix = pixbuf();
    for _ in 0..60 {
        nes.tick(&mut pix).unwrap();
    }
    nes.nmi();
    for _ in 0..120 {
        nes.tick(&mut pix).unwrap();
    }
    assert_eq!(nes.state.bus.read_readonly(0x0300), 0x99);
}

#[test]
fn stack_push_then_pull_gives_the_byte_back() {
    // LDA #$5A; PHA; LDA #$00; PLA; STA $0200; loop: JMP loop
    let program: &[u8] = &[0xa9, 0x5a, 0x48, 0xa9, 0x00, 0x68, 0x8d, 0x00, 0x02, 0x4c, 0x09, 0x80];
    let mut nes = machine(&[(0x8000, program)], 0x8000);
    let mut pix = pixbuf();
    for _ in 0..200 {
        nes.tick(&mut pix).unwrap();
    }
    assert_eq!(nes.state.bus.read_readonly(0x01fd), 0x5a);
    assert_eq!(nes.state.bus.read_readonly(0x0200), 0x5a);
    assert_eq!(nes.state.cpu.s, 0xfd);
}

#[test]
fn decode_reads_the_operand_bytes() {
    let data = nrom_image(&[(0x8000, &[0xbd, 0x34, 0x12])], 0x8000);
    let mut nes = NES::from_rom(INESRom::from_reader(&data).unwrap());
    let (instruction, opcode) =
        Instruction::load_instruction(&mut nes.state.bus, &mut nes.state.cpu).unwrap();
    assert_eq!(opcode, 0xbd);
    assert_eq!(nes.state.cpu.pc, 0x8003);
    match instruction {
        Instruction::LDA(Operand::AbsoluteX(addr)) => assert_eq!(addr, 0x1234),
        other => panic!("decoded {:?}", other),
    }
    assert_eq!(Operand::AbsoluteX(0x1234).to_bytes(), vec![0x34, 0x12]);
}

#[test]
fn subroutine_call_returns_after_the_call() {
    // 0x8000: JSR $8010; LDX #$07; loop: JMP loop
    // 0x8010: LDA #$33; RTS
    let main: &[u8] = &[0x20, 0x10, 0x80, 0xa2, 0x07, 0x4c, 0x05, 0x80];
    let sub: &[u8] = &[0xa9, 0x33, 0x60];
    let mut nes = machine(&[(0x8000, main), (0x8010, sub)], 0x8000);
    let mut pix = pixbuf();
    for _ in 0..300 {
        nes.tick(&mut pix).unwrap();
    }
    assert_eq!(nes.state.cpu.a, 0x33);
    assert_eq!(nes.state.cpu.x, 0x07);
    // the stack pointer is back where the reset left it
    assert_eq!(nes.state.cpu.s, 0xfd);
    // the return address pushed was that of the call's last byte
    assert_eq!(nes.state.bus.read_readonly(0x01fd), 0x80);
    assert_eq!(nes.state.bus.read_readonly(0x01fc), 0x02);
}

#[test]
fn pushed_accumulator_pulls_back() {
    // LDA #$80; PHA; LDA #$01; PLA; loop: JMP loop
    let program: &[u8] = &[0xa9, 0x80, 0x48, 0xa9, 0x01, 0x68, 0x4c, 0x06, 0x80];
    let mut nes = machine(&[(0x8000, program)], 0x8000);
    let mut pix = pixbuf();
    for _ in 0..300 {
        nes.tick(&mut pix).unwrap();
    }
    assert_eq!(nes.state.cpu.a, 0x80);
    assert_eq!(nes.state.cpu.s, 0xfd);
    assert!(nes.state.cpu.p.negative_flag);
    assert!(!nes.state.cpu.p.zero_flag);
}

#[test]
fn status_register_bit_5_always_reads_set() {
    let mut nes = machine(&[], 0x8000);
    nes.state.cpu.set_status_register(0x00);
    assert_eq!(nes.state.cpu.get_status_register(), 0x20);
    nes.state.cpu.set_status_register(0xc3);
    assert_eq!(nes.state.cpu.get_status_register(), 0xe3);
    nes.state.cpu.set_status_register(0xff);
    assert_eq!(nes.state.cpu.get_status_register(), 0xff);
}

#[test]
fn subtract_with_borrow() {
    // SEC; LDA #$50; SBC #$F0; loop: JMP loop
    let program: &[u8] = &[0x38, 0xa9, 0x50, 0xe9, 0xf0, 0x4c, 0x05, 0x80];
    let mut nes = machine(&[(0x8000, program)], 0x8000);
    let mut pix = pixbuf();
    for _ in 0..200 {
        nes.tick(&mut pix).unwrap();
    }
    assert_eq!(nes.state.cpu.a, 0x60);
    assert!(!nes.state.cpu.p.carry_flag);
    assert!(!nes.state.cpu.p.overflow_flag);
    assert!(!nes.state.cpu.p.negative_flag);
}
