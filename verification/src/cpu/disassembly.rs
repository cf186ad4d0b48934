use vstd::prelude::*;

use crate::bus::{peek, Bus};
use crate::cpu::cpu::CPU;
use crate::cpu::cpu_bus::{CPUBus, CPUBusView};
use crate::cpu::instructions::{mnemonic, operand_spec, Instruction};
use crate::cpu::operand::{
    addr_readonly_spec, eval_readonly_spec, operand_bytes, word_spec, Operand,
};
use crate::cpu::status::status_byte;
use crate::cpu::text::{
    dec_digits, hex, pad_back, pad_front, push_chars, push_dec, push_hex, push_padded_back,
    push_padded_front, push_str, signed_dec, signed_dec_chars,
};
use crate::ppu::PPUAddressLatch;
use vstd::string::StrSliceExecFns;

verus! {

/// An address an operand resolved to, and the byte there.
#[derive(Debug, Clone, Copy, PartialEq, Eq, Structural)]
pub struct DisassemblyEvalResult<AddrType> {
    pub addr: AddrType,
    pub value: u8,
}

/// An operand as a disassembly shows it, with what it resolved to when
/// evaluated.
#[derive(Debug, Clone, Copy)]
pub enum DisassembledOperand {
    Accumulator,
    Immediate { value: u8 },
    Absolute { addr: u16, result: Option<u8> },
    AbsoluteX { base_addr: u16, result: Option<DisassemblyEvalResult<u16>> },
    AbsoluteY { base_addr: u16, result: Option<DisassemblyEvalResult<u16>> },
    ZeroPage { zp_addr: u8, result: Option<u8> },
    ZeroPageX { zp_addr: u8, result: Option<DisassemblyEvalResult<u8>> },
    ZeroPageY { zp_addr: u8, result: Option<DisassemblyEvalResult<u8>> },
    Indirect { addr: u16, result_addr: Option<u16> },
    IndirectX { zp_addr: u8, result: Option<(u8, DisassemblyEvalResult<u16>)> },
    IndirectY { zp_addr: u8, result: Option<(u16, DisassemblyEvalResult<u16>)> },
    Relative { offset: i8, pc: u16 },
}

/// An instruction as a disassembly shows it.
#[derive(Debug)]
pub struct DisassembledInstruction {
    pub instruction: Instruction,
    pub operand: Option<DisassembledOperand>,
}

/// A branch target as shown: the 32-bit two's-complement pattern of the sum.
pub open spec fn target_pattern(pc: u16, offset: i8) -> nat {
    let v = pc as int + offset as int;
    if v < 0 {
        (v + 0x1_0000_0000) as nat
    } else {
        v as nat
    }
}

/// The operand itself, in assembler syntax.
pub open spec fn operand_base_text(op: DisassembledOperand) -> Seq<char> {
    match op {
        DisassembledOperand::Accumulator => "A"@,
        DisassembledOperand::Immediate { value } => "#$"@ + hex(value as nat, 2),
        DisassembledOperand::Absolute { addr, .. } => "$"@ + hex(addr as nat, 4),
        DisassembledOperand::AbsoluteX { base_addr, .. } => "$"@ + hex(base_addr as nat, 4) + ",X"@,
        DisassembledOperand::AbsoluteY { base_addr, .. } => "$"@ + hex(base_addr as nat, 4) + ",Y"@,
        DisassembledOperand::ZeroPage { zp_addr, .. } => "$"@ + hex(zp_addr as nat, 2),
        DisassembledOperand::ZeroPageX { zp_addr, .. } => "$"@ + hex(zp_addr as nat, 2) + ",X"@,
        DisassembledOperand::ZeroPageY { zp_addr, .. } => "$"@ + hex(zp_addr as nat, 2) + ",Y"@,
        DisassembledOperand::Indirect { addr, .. } => "($"@ + hex(addr as nat, 4) + ")"@,
        DisassembledOperand::IndirectX { zp_addr, .. } => "($"@ + hex(zp_addr as nat, 2) + ",X)"@,
        DisassembledOperand::IndirectY { zp_addr, .. } => "($"@ + hex(zp_addr as nat, 2) + "),Y"@,
        DisassembledOperand::Relative { offset, pc } => "$"@ + hex(target_pattern(pc, offset), 4),
    }
}

/// The operand as shown: the operand, then what it resolved to, if evaluated.
pub open spec fn operand_text(op: DisassembledOperand) -> Seq<char> {
    let base = operand_base_text(op);
    match op {
        DisassembledOperand::AbsoluteX { result: Some(r), .. }
        | DisassembledOperand::AbsoluteY { result: Some(r), .. } => base + " @ "@ + hex(
            r.addr as nat,
            4,
        ) + " = "@ + hex(r.value as nat, 2),
        DisassembledOperand::ZeroPageX { result: Some(r), .. }
        | DisassembledOperand::ZeroPageY { result: Some(r), .. } => base + " @ "@ + hex(
            r.addr as nat,
            2,
        ) + " = "@ + hex(r.value as nat, 2),
        DisassembledOperand::Indirect { result_addr: Some(a), .. } => base + " = "@ + hex(
            a as nat,
            4,
        ),
        DisassembledOperand::IndirectX { zp_addr, result: Some((x, r)) } => base + " @ "@ + hex(
            ((x as int + zp_addr as int) % 256) as nat,
            2,
        ) + " = "@ + hex(r.addr as nat, 4) + " = "@ + hex(r.value as nat, 2),
        DisassembledOperand::IndirectY { result: Some((i, r)), .. } => base + " = "@ + hex(
            i as nat,
            4,
        ) + " @ "@ + hex(r.addr as nat, 4) + " = "@ + hex(r.value as nat, 2),
        DisassembledOperand::Absolute { result: Some(v), .. }
        | DisassembledOperand::ZeroPage { result: Some(v), .. } => base + " = "@ + hex(v as nat, 2),
        _ => base,
    }
}

/// The instruction as shown: its mnemonic (that of the wrapped instruction
/// for an unofficial opcode), then its operand.
pub open spec fn instruction_text(d: DisassembledInstruction) -> Seq<char> {
    match d.operand {
        Some(op) => mnemonic(d.instruction) + " "@ + operand_text(op),
        None => mnemonic(d.instruction),
    }
}

/// How an operand is disassembled against the CPU registers and the bus; when
/// `eval` is set, it shows what its address and value are there.
pub open spec fn disassemble_operand<B: Bus>(op: Operand, cpu: CPU, bus: B::V, eval: bool) -> DisassembledOperand {
    let addr = addr_readonly_spec::<B>(op, cpu, bus).0;
    let value = eval_readonly_spec::<B>(op, cpu, bus).0;
    match op {
        Operand::Accumulator => DisassembledOperand::Accumulator,
        Operand::Immediate(v) => DisassembledOperand::Immediate { value: v },
        Operand::Absolute(a) => DisassembledOperand::Absolute {
            addr: a,
            result: if eval {
                Some(value)
            } else {
                None
            },
        },
        Operand::AbsoluteX(a) => DisassembledOperand::AbsoluteX {
            base_addr: a,
            result: if eval {
                Some(DisassemblyEvalResult { addr, value })
            } else {
                None
            },
        },
        Operand::AbsoluteY(a) => DisassembledOperand::AbsoluteY {
            base_addr: a,
            result: if eval {
                Some(DisassemblyEvalResult { addr, value })
            } else {
                None
            },
        },
        Operand::ZeroPage(z) => DisassembledOperand::ZeroPage {
            zp_addr: z,
            result: if eval {
                Some(value)
            } else {
                None
            },
        },
        Operand::ZeroPageX(z) => DisassembledOperand::ZeroPageX {
            zp_addr: z,
            result: if eval {
                Some(DisassemblyEvalResult { addr: addr as u8, value })
            } else {
                None
            },
        },
        Operand::ZeroPageY(z) => DisassembledOperand::ZeroPageY {
            zp_addr: z,
            result: if eval {
                Some(DisassemblyEvalResult { addr: addr as u8, value })
            } else {
                None
            },
        },
        Operand::Indirect(a) => DisassembledOperand::Indirect {
            addr: a,
            result_addr: if eval {
                Some(addr)
            } else {
                None
            },
        },
        Operand::IndirectX(z) => DisassembledOperand::IndirectX {
            zp_addr: z,
            result: if eval {
                Some((cpu.x, DisassemblyEvalResult { addr, value }))
            } else {
                None
            },
        },
        Operand::IndirectY(z) => DisassembledOperand::IndirectY {
            zp_addr: z,
            result: if eval {
                Some(
                    (
                        word_spec(peek::<B>(bus, z as u16), peek::<B>(bus, ((z as int + 1) % 256) as u16)),
                        DisassemblyEvalResult { addr, value },
                    ),
                )
            } else {
                None
            },
        },
        Operand::Relative(o) => DisassembledOperand::Relative { offset: o, pc: cpu.pc },
    }
}

/// Whether a disassembly evaluates an instruction's operand: never for JSR,
/// only the indirect form of JMP, and every other instruction that has one.
pub open spec fn evaluates(i: Instruction) -> bool {
    match i {
        Instruction::JSR(_) => false,
        Instruction::JMP(op) => op is Indirect,
        _ => operand_spec(i) is Some,
    }
}

/// The operand part of an instruction's disassembly.
pub open spec fn disassembled_operand<B: Bus>(i: Instruction, cpu: CPU, bus: B::V) -> Option<DisassembledOperand> {
    match operand_spec(i) {
        Some(op) => Some(disassemble_operand::<B>(op, cpu, bus, evaluates(i))),
        None => None,
    }
}

impl DisassembledOperand {
    /// The operand as shown in a disassembly.
    pub fn to_string(&self) -> (r: String)
        ensures
            r@ == operand_text(*self),
    {
        let mut out = String::new();
        match self {
            DisassembledOperand::Accumulator => push_str(&mut out, "A"),
            DisassembledOperand::Immediate { value } => {
                push_str(&mut out, "#$");
                push_hex(&mut out, *value as u64, 2);
            },
            DisassembledOperand::Absolute { addr, .. } => {
                push_str(&mut out, "$");
                push_hex(&mut out, *addr as u64, 4);
            },
            DisassembledOperand::AbsoluteX { base_addr, .. } => {
                push_str(&mut out, "$");
                push_hex(&mut out, *base_addr as u64, 4);
                push_str(&mut out, ",X");
            },
            DisassembledOperand::AbsoluteY { base_addr, .. } => {
                push_str(&mut out, "$");
                push_hex(&mut out, *base_addr as u64, 4);
                push_str(&mut out, ",Y");
            },
            DisassembledOperand::ZeroPage { zp_addr, .. } => {
                push_str(&mut out, "$");
                push_hex(&mut out, *zp_addr as u64, 2);
            },
            DisassembledOperand::ZeroPageX { zp_addr, .. } => {
                push_str(&mut out, "$");
                push_hex(&mut out, *zp_addr as u64, 2);
                push_str(&mut out, ",X");
            },
            DisassembledOperand::ZeroPageY { zp_addr, .. } => {
                push_str(&mut out, "$");
                push_hex(&mut out, *zp_addr as u64, 2);
                push_str(&mut out, ",Y");
            },
            DisassembledOperand::Indirect { addr, .. } => {
                push_str(&mut out, "($");
                push_hex(&mut out, *addr as u64, 4);
                push_str(&mut out, ")");
            },
            DisassembledOperand::IndirectX { zp_addr, .. } => {
                push_str(&mut out, "($");
                push_hex(&mut out, *zp_addr as u64, 2);
                push_str(&mut out, ",X)");
            },
            DisassembledOperand::IndirectY { zp_addr, .. } => {
                push_str(&mut out, "($");
                push_hex(&mut out, *zp_addr as u64, 2);
                push_str(&mut out, "),Y");
            },
            DisassembledOperand::Relative { offset, pc } => {
                let v: i64 = *pc as i64 + *offset as i64;
                let pattern: u64 = if v < 0 {
                    (v + 0x1_0000_0000) as u64
                } else {
                    v as u64
                };
                push_str(&mut out, "$");
                push_hex(&mut out, pattern, 4);
            },
        }
        assert(out@ =~= operand_base_text(*self));
        match self {
            DisassembledOperand::AbsoluteX { result: Some(r), .. }
            | DisassembledOperand::AbsoluteY { result: Some(r), .. } => {
                push_str(&mut out, " @ ");
                push_hex(&mut out, r.addr as u64, 4);
                push_str(&mut out, " = ");
                push_hex(&mut out, r.value as u64, 2);
            },
            DisassembledOperand::ZeroPageX { result: Some(r), .. }
            | DisassembledOperand::ZeroPageY { result: Some(r), .. } => {
                push_str(&mut out, " @ ");
                push_hex(&mut out, r.addr as u64, 2);
                push_str(&mut out, " = ");
                push_hex(&mut out, r.value as u64, 2);
            },
            DisassembledOperand::Indirect { result_addr: Some(a), .. } => {
                push_str(&mut out, " = ");
                push_hex(&mut out, *a as u64, 4);
            },
            DisassembledOperand::IndirectX { zp_addr, result: Some((x, r)) } => {
                push_str(&mut out, " @ ");
                push_hex(&mut out, x.wrapping_add(*zp_addr) as u64, 2);
                push_str(&mut out, " = ");
                push_hex(&mut out, r.addr as u64, 4);
                push_str(&mut out, " = ");
                push_hex(&mut out, r.value as u64, 2);
            },
            DisassembledOperand::IndirectY { result: Some((i, r)), .. } => {
                push_str(&mut out, " = ");
                push_hex(&mut out, *i as u64, 4);
                push_str(&mut out, " @ ");
                push_hex(&mut out, r.addr as u64, 4);
                push_str(&mut out, " = ");
                push_hex(&mut out, r.value as u64, 2);
            },
            DisassembledOperand::Absolute { result: Some(v), .. }
            | DisassembledOperand::ZeroPage { result: Some(v), .. } => {
                push_str(&mut out, " = ");
                push_hex(&mut out, *v as u64, 2);
            },
            _ => {},
        }
        assert(out@ =~= operand_text(*self));
        out
    }
}

impl DisassembledInstruction {
    /// The instruction as shown in a disassembly.
    pub fn to_string(&self) -> (r: String)
        ensures
            r@ == instruction_text(*self),
    {
        let mut out = String::new();
        let name = match &self.instruction {
            Instruction::Illegal(inner, _) => inner.variant_name(),
            _ => self.instruction.variant_name(),
        };
        push_str(&mut out, name);
        match &self.operand {
            Some(op) => {
                push_str(&mut out, " ");
                let t = op.to_string();
                push_str(&mut out, t.as_str());
            },
            None => {},
        }
        assert(out@ =~= instruction_text(*self));
        out
    }
}

impl Operand {
    /// Disassembles the operand against the CPU registers and the bus,
    /// evaluating it when `eval` is set.
    pub fn disassemble<B: Bus>(&self, bus: &B, cpu: &CPU, eval: bool) -> (r: DisassembledOperand)
        ensures
            r == disassemble_operand::<B>(*self, *cpu, bus@, eval),
    {
        match self {
            Operand::Accumulator => DisassembledOperand::Accumulator,
            Operand::Immediate(value) => DisassembledOperand::Immediate { value: *value },
            Operand::Absolute(addr) => DisassembledOperand::Absolute {
                addr: *addr,
                result: if eval {
                    Some(self.eval_readonly(cpu, bus).0)
                } else {
                    None
                },
            },
            Operand::AbsoluteX(base_addr) => DisassembledOperand::AbsoluteX {
                base_addr: *base_addr,
                result: if eval {
                    Some(
                        DisassemblyEvalResult {
                            addr: self.get_addr_readonly(cpu, bus).0,
                            value: self.eval_readonly(cpu, bus).0,
                        },
                    )
                } else {
                    None
                },
            },
            Operand::AbsoluteY(base_addr) => DisassembledOperand::AbsoluteY {
                base_addr: *base_addr,
                result: if eval {
                    Some(
                        DisassemblyEvalResult {
                            addr: self.get_addr_readonly(cpu, bus).0,
                            value: self.eval_readonly(cpu, bus).0,
                        },
                    )
                } else {
                    None
                },
            },
            Operand::ZeroPage(zp_addr) => DisassembledOperand::ZeroPage {
                zp_addr: *zp_addr,
                result: if eval {
                    Some(self.eval_readonly(cpu, bus).0)
                } else {
                    None
                },
            },
            Operand::ZeroPageX(zp_addr) => DisassembledOperand::ZeroPageX {
                zp_addr: *zp_addr,
                result: if eval {
                    Some(
                        DisassemblyEvalResult {
                            addr: self.get_addr_readonly(cpu, bus).0 as u8,
                            value: self.eval_readonly(cpu, bus).0,
                        },
                    )
                } else {
                    None
                },
            },
            Operand::ZeroPageY(zp_addr) => DisassembledOperand::ZeroPageY {
                zp_addr: *zp_addr,
                result: if eval {
                    Some(
                        DisassemblyEvalResult {
                            addr: self.get_addr_readonly(cpu, bus).0 as u8,
                            value: self.eval_readonly(cpu, bus).0,
                        },
                    )
                } else {
                    None
                },
            },
            Operand::Indirect(addr) => DisassembledOperand::Indirect {
                addr: *addr,
                result_addr: if eval {
                    Some(self.get_addr_readonly(cpu, bus).0)
                } else {
                    None
                },
            },
            Operand::IndirectX(zp_addr) => DisassembledOperand::IndirectX {
                zp_addr: *zp_addr,
                result: if eval {
                    Some(
                        (
                            cpu.x,
                            DisassemblyEvalResult {
                                addr: self.get_addr_readonly(cpu, bus).0,
                                value: self.eval_readonly(cpu, bus).0,
                            },
                        ),
                    )
                } else {
                    None
                },
            },
            Operand::IndirectY(zp_addr) => DisassembledOperand::IndirectY {
                zp_addr: *zp_addr,
                result: if eval {
                    let low = bus.read_readonly(*zp_addr as u16);
                    let high = bus.read_readonly(zp_addr.wrapping_add(1) as u16);
                    let intermediate_addr = (high as u16) * 256 + (low as u16);
                    Some(
                        (
                            intermediate_addr,
                            DisassemblyEvalResult {
                                addr: self.get_addr_readonly(cpu, bus).0,
                                value: self.eval_readonly(cpu, bus).0,
                            },
                        ),
                    )
                } else {
                    None
                },
            },
            Operand::Relative(offset) => DisassembledOperand::Relative { offset: *offset, pc: cpu.pc },
        }
    }
}

impl Instruction {
    /// Disassembles the instruction against the CPU registers and the bus.
    pub fn disassemble<B: Bus>(&self, bus: &B, cpu: &CPU) -> (r: DisassembledInstruction)
        ensures
            r.instruction == *self,
            r.operand == disassembled_operand::<B>(*self, *cpu, bus@),
    {
        let eval = match self {
            Instruction::JSR(_) => false,
            Instruction::JMP(op) => match op {
                Operand::Indirect(_) => true,
                _ => false,
            },
            _ => self.operand().is_some(),
        };
        match self.operand() {
            Some(op) => DisassembledInstruction {
                instruction: self.duplicate(),
                operand: Some(op.disassemble(bus, cpu, eval)),
            },
            None => DisassembledInstruction { instruction: self.duplicate(), operand: None },
        }
    }
}

/// What a trace line reports of the machine before an instruction: the CPU,
/// the PPU's position and scroll registers, and three PPU registers as read.
#[derive(Debug, Clone, Copy)]
pub struct DisassemblyMachineState {
    pub cpu: CPU,
    pub scanline: i32,
    pub cycle: i32,
    pub cycle_count: u64,
    pub vram_addr: u16,
    pub tram_addr: u16,
    pub ppu2002: u8,
    pub ppu2004: u8,
    pub ppu2007: u8,
    pub fine_x: u8,
    pub ppu_address_latch: PPUAddressLatch,
}

/// The byte a read of `addr` yields on the bus, without side effects.
pub open spec fn bus_peek(bus: CPUBusView, addr: u16) -> u8 {
    peek::<CPUBus>(bus, addr)
}

impl DisassemblyMachineState {
    /// Records the machine's state for a trace line.
    pub fn capture(cpu: &CPU, bus: &CPUBus, cpu_cycle_count: u64) -> (r: DisassemblyMachineState)
        ensures
            r.cpu == *cpu,
            r.scanline == bus@.ppu.scanline,
            r.cycle == bus@.ppu.cycle,
            r.cycle_count == cpu_cycle_count,
            r.vram_addr == bus@.ppu.vram_addr,
            r.tram_addr == bus@.ppu.tram_addr,
            r.ppu2002 == bus_peek(bus@, 0x2002),
            r.ppu2004 == bus_peek(bus@, 0x2004),
            r.ppu2007 == bus_peek(bus@, 0x2007),
            r.fine_x == bus@.ppu.fine_x,
            r.ppu_address_latch == bus@.ppu.address_latch,
    {
        DisassemblyMachineState {
            cpu: *cpu,
            scanline: bus.ppu.scanline,
            cycle: bus.ppu.cycle,
            cycle_count: cpu_cycle_count,
            vram_addr: bus.ppu.vram_addr.0,
            tram_addr: bus.ppu.tram_addr.0,
            ppu2002: bus.read_readonly(0x2002),
            ppu2004: bus.read_readonly(0x2004),
            ppu2007: bus.read_readonly(0x2007),
            fine_x: bus.ppu.fine_x,
            ppu_address_latch: bus.ppu.address_latch,
        }
    }
}

/// Operand bytes as hexadecimal pairs separated by spaces.
pub open spec fn bytes_text(bs: Seq<u8>) -> Seq<char>
    decreases bs.len(),
{
    if bs.len() == 0 {
        seq![]
    } else if bs.len() == 1 {
        hex(bs[0] as nat, 2)
    } else {
        bytes_text(bs.drop_last()) + " "@ + hex(bs.last() as nat, 2)
    }
}

/// The operand bytes of an instruction, as shown.
pub open spec fn instruction_bytes_text(i: Instruction) -> Seq<char> {
    match operand_spec(i) {
        Some(op) => bytes_text(operand_bytes(op)),
        None => seq![],
    }
}

/// The start of a trace line: address, opcode, operand bytes, a star for an
/// unofficial opcode, the disassembly, and the CPU registers.
pub open spec fn line_prefix(e: ExecutedInstruction, prev: DisassemblyMachineState) -> Seq<char> {
    hex(prev.cpu.pc as nat, 4) + "  "@ + hex(e.opcode as nat, 2) + " "@ + pad_back(
        instruction_bytes_text(e.instruction),
        6,
    ) + (if e.instruction is Illegal {
        "*"@
    } else {
        " "@
    }) + pad_back(instruction_text(e.disassembled_instruction), 32) + "A:"@ + hex(prev.cpu.a as nat, 2)
        + " X:"@ + hex(prev.cpu.x as nat, 2) + " Y:"@ + hex(prev.cpu.y as nat, 2) + " P:"@ + hex(
        status_byte(prev.cpu.p) as nat,
        2,
    ) + " SP:"@ + hex(prev.cpu.s as nat, 2)
}

/// A trace line in the reference log format: the prefix, the PPU position
/// (line counted from 1) and the CPU cycle count.
pub open spec fn trace_line(e: ExecutedInstruction, prev: DisassemblyMachineState) -> Seq<char> {
    line_prefix(e, prev) + " PPU:"@ + pad_front(signed_dec(prev.scanline + 1), 3, ' ') + ","@
        + pad_front(signed_dec(prev.cycle as int), 3, ' ') + " CYC:"@ + dec_digits(prev.cycle_count as nat)
}

/// A trace line with the PPU's scroll registers, position and three registers.
pub open spec fn trace_line_with_ppu(e: ExecutedInstruction, prev: DisassemblyMachineState) -> Seq<char> {
    line_prefix(e, prev) + " v:"@ + hex(prev.vram_addr as nat, 4) + " t:"@ + hex(prev.tram_addr as nat, 4)
        + " x:"@ + dec_digits(prev.fine_x as nat) + " w:"@ + (if prev.ppu_address_latch
        == PPUAddressLatch::High {
        "0"@
    } else {
        "1"@
    }) + " CYC:"@ + pad_front(signed_dec(prev.cycle as int), 3, ' ') + " SL:"@ + pad_back(
        signed_dec(prev.scanline as int),
        3,
    ) + " 2002:"@ + hex(prev.ppu2002 as nat, 2) + " 2004:"@ + hex(prev.ppu2004 as nat, 2) + " 2007:"@
        + hex(prev.ppu2007 as nat, 2)
}

/// An instruction the CPU has executed: the instruction, its opcode, and its
/// disassembly as of the moment it was fetched.
#[derive(Debug)]
pub struct ExecutedInstruction {
    pub instruction: Instruction,
    pub opcode: u8,
    pub disassembled_instruction: DisassembledInstruction,
}

fn push_operand_bytes(out: &mut String, i: &Instruction)
    ensures
        final(out)@ == old(out)@ + pad_back(instruction_bytes_text(*i), 6),
{
    let mut text: Vec<char> = Vec::new();
    let mut s = String::new();
    match i.operand() {
        Some(op) => {
            let bytes = op.to_bytes();
            let mut k: usize = 0;
            while k < bytes.len()
                invariant
                    k <= bytes@.len(),
                    bytes@ == operand_bytes(op),
                    s@ == bytes_text(bytes@.subrange(0, k as int)),
                decreases bytes.len() - k,
            {
                if k > 0 {
                    push_str(&mut s, " ");
                }
                push_hex(&mut s, bytes[k] as u64, 2);
                proof {
                    let t = bytes@.subrange(0, k + 1);
                    assert(t.drop_last() =~= bytes@.subrange(0, k as int));
                    assert(t.last() == bytes@[k as int]);
                    if k == 0 {
                        assert(bytes_text(bytes@.subrange(0, 0)) =~= seq![]);
                    }
                }
                k = k + 1;
            }
            assert(bytes@.subrange(0, bytes@.len() as int) =~= bytes@);
        },
        None => {},
    }
    assert(s@ =~= instruction_bytes_text(*i));
    let chars = string_chars(&s);
    push_padded_back(out, &chars, 6);
}

/// The characters of a string.
fn string_chars(s: &String) -> (r: Vec<char>)
    ensures
        r@ == s@,
{
    let mut v: Vec<char> = Vec::new();
    let n = s.as_str().unicode_len();
    let mut i: usize = 0;
    while i < n
        invariant
            i <= n,
            n == s@.len(),
            v@ == s@.subrange(0, i as int),
        decreases n - i,
    {
        v.push(s.as_str().get_char(i));
        assert(s@.subrange(0, i + 1) =~= s@.subrange(0, i as int).push(s@[i as int]));
        i = i + 1;
    }
    assert(s@.subrange(0, n as int) =~= s@);
    v
}

impl ExecutedInstruction {
    fn push_prefix(&self, out: &mut String, prev: &DisassemblyMachineState)
        ensures
            final(out)@ == old(out)@ + line_prefix(*self, *prev),
    {
        let mut pre = String::new();
        push_hex(&mut pre, prev.cpu.pc as u64, 4);
        assert(pre@ =~= hex(prev.cpu.pc as nat, 4));
        push_str(&mut pre, "  ");
        push_hex(&mut pre, self.opcode as u64, 2);
        push_str(&mut pre, " ");
        push_operand_bytes(&mut pre, &self.instruction);
        let star = match &self.instruction {
            Instruction::Illegal(_, _) => "*",
            _ => " ",
        };
        push_str(&mut pre, star);
        let text = self.disassembled_instruction.to_string();
        let chars = string_chars(&text);
        push_padded_back(&mut pre, &chars, 32);
        push_str(&mut pre, "A:");
        push_hex(&mut pre, prev.cpu.a as u64, 2);
        push_str(&mut pre, " X:");
        push_hex(&mut pre, prev.cpu.x as u64, 2);
        push_str(&mut pre, " Y:");
        push_hex(&mut pre, prev.cpu.y as u64, 2);
        push_str(&mut pre, " P:");
        push_hex(&mut pre, prev.cpu.p.to_byte() as u64, 2);
        push_str(&mut pre, " SP:");
        push_hex(&mut pre, prev.cpu.s as u64, 2);
        assert(pre@ == line_prefix(*self, *prev));
        push_str(out, pre.as_str());
    }

    /// The instruction's trace line in the reference log format, against the
    /// machine state captured before it ran.
    pub fn disassemble(&self, prev_state: &DisassemblyMachineState) -> (r: String)
        ensures
            r@ == trace_line(*self, *prev_state),
    {
        let mut out = String::new();
        self.push_prefix(&mut out, prev_state);
        push_str(&mut out, " PPU:");
        let sl = signed_dec_chars(prev_state.scanline as i64 + 1);
        push_padded_front(&mut out, &sl, 3, ' ');
        push_str(&mut out, ",");
        let cy = signed_dec_chars(prev_state.cycle as i64);
        push_padded_front(&mut out, &cy, 3, ' ');
        push_str(&mut out, " CYC:");
        push_dec(&mut out, prev_state.cycle_count);
        assert(out@ =~= trace_line(*self, *prev_state));
        out
    }

    /// The instruction's trace line with the PPU's registers.
    pub fn disassemble_with_ppu(&self, prev_state: &DisassemblyMachineState) -> (r: String)
        ensures
            r@ == trace_line_with_ppu(*self, *prev_state),
    {
        let mut out = String::new();
        self.push_prefix(&mut out, prev_state);
        push_str(&mut out, " v:");
        push_hex(&mut out, prev_state.vram_addr as u64, 4);
        push_str(&mut out, " t:");
        push_hex(&mut out, prev_state.tram_addr as u64, 4);
        push_str(&mut out, " x:");
        push_dec(&mut out, prev_state.fine_x as u64);
        push_str(&mut out, " w:");
        let w = match prev_state.ppu_address_latch {
            PPUAddressLatch::High => "0",
            PPUAddressLatch::Low => "1",
        };
        push_str(&mut out, w);
        push_str(&mut out, " CYC:");
        let cy = signed_dec_chars(prev_state.cycle as i64);
        push_padded_front(&mut out, &cy, 3, ' ');
        push_str(&mut out, " SL:");
        let sl = signed_dec_chars(prev_state.scanline as i64);
        push_padded_back(&mut out, &sl, 3);
        push_str(&mut out, " 2002:");
        push_hex(&mut out, prev_state.ppu2002 as u64, 2);
        push_str(&mut out, " 2004:");
        push_hex(&mut out, prev_state.ppu2004 as u64, 2);
        push_str(&mut out, " 2007:");
        push_hex(&mut out, prev_state.ppu2007 as u64, 2);
        assert(out@ =~= trace_line_with_ppu(*self, *prev_state));
        out
    }
}

} // verus!
