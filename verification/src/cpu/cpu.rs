use vstd::prelude::*;

use crate::bus::{peek, read_spec, Bus};

use super::instructions::{cycles_spec, decode, decode_spec, depth, executable, operand_size, operand_size_spec, well_formed, Instruction};
use super::operand::{addr_spec, eval_spec, make_word, word_spec, Operand};
use super::disassembly::{disassembled_operand, ExecutedInstruction};
use super::status::{status_byte, status_from_byte, CPUStatusRegister};

use super::encoding::{
    lemma_decode_reencodes, lemma_fetch_consumes_operand, lemma_known_opcodes, operand_encoding,
    unknown_opcode,
};

verus! {

/// The 6502 registers and interrupt lines.
#[derive(Debug, Clone, Copy)]
pub struct CPU {
    pub wait_cycles: u8,
    pub pc: u16,
    pub a: u8,
    pub x: u8,
    pub y: u8,
    pub s: u8,
    pub p: CPUStatusRegister,
    pub nmi_set: bool,
    pub irq_set: bool,
}

/// `p` with the zero and negative flags set from `v`.
pub open spec fn with_nz(p: CPUStatusRegister, v: u8) -> CPUStatusRegister {
    CPUStatusRegister { zero_flag: v == 0, negative_flag: v >= 128, ..p }
}

/// `cpu` with one more wait cycle when `cond` holds.
pub open spec fn add_cycle_if(cpu: CPU, cond: bool) -> CPU {
    if cond {
        CPU { wait_cycles: (cpu.wait_cycles + 1) as u8, ..cpu }
    } else {
        cpu
    }
}

/// The byte before `v`, wrapping from 0 to 255.
pub open spec fn dec8(v: u8) -> u8 {
    ((v as int + 255) % 256) as u8
}

/// The byte after `v`, wrapping from 255 to 0.
pub open spec fn inc8(v: u8) -> u8 {
    ((v as int + 1) % 256) as u8
}

/// The high byte of `w`.
pub open spec fn hi_byte(w: u16) -> u8 {
    (w / 256) as u8
}

/// The low byte of `w`.
pub open spec fn lo_byte(w: u16) -> u8 {
    (w % 256) as u8
}

/// The state after storing `value` through the operand `op`.
pub open spec fn set_operand_spec<B: Bus>(op: Operand, value: u8, cpu: CPU, bus: B::V) -> (CPU, B::V) {
    match op {
        Operand::Accumulator => (CPU { a: value, ..cpu }, bus),
        _ => {
            let (addr, _, b1) = addr_spec::<B>(op, cpu, bus);
            (cpu, B::write_spec(b1, addr, value))
        },
    }
}

/// The state after a jump through `op`, and whether a relative jump crossed a page.
pub open spec fn set_pc_spec<B: Bus>(op: Operand, cpu: CPU, bus: B::V) -> (CPU, B::V, bool) {
    match op {
        Operand::Relative(offset) => {
            let new_pc = ((cpu.pc as int + offset as int + 65536) % 65536) as u16;
            (CPU { pc: new_pc, ..cpu }, bus, hi_byte(new_pc) != hi_byte(cpu.pc))
        },
        _ => {
            let (addr, _, b1) = addr_spec::<B>(op, cpu, bus);
            (CPU { pc: addr, ..cpu }, b1, false)
        },
    }
}

/// The state after pushing `value` on the stack at page 1.
pub open spec fn push_spec<B: Bus>(value: u8, cpu: CPU, bus: B::V) -> (CPU, B::V) {
    (CPU { s: dec8(cpu.s), ..cpu }, B::write_spec(bus, (cpu.s as int + 256) as u16, value))
}

/// The value pulled from the stack and the state after pulling it.
pub open spec fn pull_spec<B: Bus>(cpu: CPU, bus: B::V) -> (u8, CPU, B::V) {
    let s = inc8(cpu.s);
    let (v, b1) = read_spec::<B>(bus, (s as int + 256) as u16);
    (v, CPU { s, ..cpu }, b1)
}

/// The operand's value for a reading instruction, charging a cycle when
/// `add_cycle` holds and the addressing crossed a page.
pub open spec fn read_arg_spec<B: Bus>(op: Operand, add_cycle: bool, cpu: CPU, bus: B::V) -> (
    u8,
    CPU,
    B::V,
) {
    let (v, crossed, b1) = eval_spec::<B>(op, cpu, bus);
    (v, add_cycle_if(cpu, crossed && add_cycle), b1)
}

/// The state after a conditional branch through `op`: a taken branch costs a
/// cycle, and one more when it lands on another page.
pub open spec fn branch_spec<B: Bus>(cond: bool, op: Operand, cpu: CPU, bus: B::V) -> (CPU, B::V) {
    if cond {
        let c1 = add_cycle_if(cpu, true);
        let (c2, b2, crossed) = set_pc_spec::<B>(op, c1, bus);
        (add_cycle_if(c2, crossed), b2)
    } else {
        (cpu, bus)
    }
}

/// Add with carry: `a + v + carry`, with carry out, signed overflow, zero and
/// negative flags.
pub open spec fn adc_spec(cpu: CPU, v: u8) -> CPU {
    let result = cpu.a as int + v as int + (if cpu.p.carry_flag {
        1int
    } else {
        0int
    });
    let r8 = (result % 256) as u8;
    let overflow = (!(cpu.a ^ v) & (cpu.a ^ r8)) & 0x80u8 > 0;
    CPU {
        a: r8,
        p: with_nz(CPUStatusRegister { overflow_flag: overflow, carry_flag: result > 255, ..cpu.p }, r8),
        ..cpu
    }
}

/// The flags after comparing the register value `reg` with `v`.
pub open spec fn compare_spec(p: CPUStatusRegister, reg: u8, v: u8) -> CPUStatusRegister {
    CPUStatusRegister {
        carry_flag: reg >= v,
        zero_flag: reg == v,
        negative_flag: (reg as int - v as int + 256) % 256 >= 128,
        ..p
    }
}

/// The state after a read-modify-write instruction stores `result`, computed from
/// the operand's value `v`, with the carry taken from `carry`; the zero flag comes
/// from `zero_from_a`: from the accumulator when it holds, else from `result`.
pub open spec fn rmw_spec<B: Bus>(
    op: Operand,
    result: u8,
    carry: bool,
    zero_from_a: bool,
    cpu: CPU,
    bus: B::V,
) -> (CPU, B::V) {
    let (c2, b2) = set_operand_spec::<B>(op, result, cpu, bus);
    (
        CPU {
            p: CPUStatusRegister {
                carry_flag: carry,
                negative_flag: result >= 128,
                zero_flag: if zero_from_a {
                    c2.a == 0
                } else {
                    result == 0
                },
                ..c2.p
            },
            ..c2
        },
        b2,
    )
}

/// Whether `i` reads its operand into a register or the flags.
pub open spec fn is_read_op(i: Instruction) -> bool {
    i is ADC || i is AND || i is CMP || i is EOR || i is LDA || i is LDX || i is LDY || i is ORA || i is SBC || i is BIT || i is CPX || i is CPY
}

/// The state after executing `i`, an instruction that reads its operand into a register or the flags.
pub open spec fn read_group_spec<B: Bus>(i: Instruction, add_cycles: bool, cpu: CPU, bus: B::V) -> (CPU, B::V) {
    match i {
        Instruction::ADC(op) => {
            let (v, c1, b1) = read_arg_spec::<B>(op, add_cycles, cpu, bus);
            (adc_spec(c1, v), b1)
        },
        Instruction::AND(op) => {
            let (v, c1, b1) = read_arg_spec::<B>(op, add_cycles, cpu, bus);
            (CPU { a: c1.a & v, p: with_nz(c1.p, c1.a & v), ..c1 }, b1)
        },
        Instruction::CMP(op) => {
            let (v, c1, b1) = read_arg_spec::<B>(op, add_cycles, cpu, bus);
            (CPU { p: compare_spec(c1.p, c1.a, v), ..c1 }, b1)
        },
        Instruction::EOR(op) => {
            let (v, c1, b1) = read_arg_spec::<B>(op, add_cycles, cpu, bus);
            (CPU { a: c1.a ^ v, p: with_nz(c1.p, c1.a ^ v), ..c1 }, b1)
        },
        Instruction::LDA(op) => {
            let (v, c1, b1) = read_arg_spec::<B>(op, add_cycles, cpu, bus);
            (CPU { a: v, p: with_nz(c1.p, v), ..c1 }, b1)
        },
        Instruction::LDX(op) => {
            let (v, c1, b1) = read_arg_spec::<B>(op, add_cycles, cpu, bus);
            (CPU { x: v, p: with_nz(c1.p, v), ..c1 }, b1)
        },
        Instruction::LDY(op) => {
            let (v, c1, b1) = read_arg_spec::<B>(op, add_cycles, cpu, bus);
            (CPU { y: v, p: with_nz(c1.p, v), ..c1 }, b1)
        },
        Instruction::ORA(op) => {
            let (v, c1, b1) = read_arg_spec::<B>(op, add_cycles, cpu, bus);
            (CPU { a: c1.a | v, p: with_nz(c1.p, c1.a | v), ..c1 }, b1)
        },
        Instruction::SBC(op) => {
            let (v, c1, b1) = read_arg_spec::<B>(op, add_cycles, cpu, bus);
            (adc_spec(c1, v ^ 0xffu8), b1)
        },
        Instruction::BIT(op) => {
            let (v, _, b1) = eval_spec::<B>(op, cpu, bus);
            (
                CPU {
                    p: CPUStatusRegister {
                        zero_flag: (v & cpu.a) == 0,
                        overflow_flag: (v / 64) % 2 == 1,
                        negative_flag: v >= 128,
                        ..cpu.p
                    },
                    ..cpu
                },
                b1,
            )
        },
        Instruction::CPX(op) => {
            let (v, _, b1) = eval_spec::<B>(op, cpu, bus);
            (CPU { p: compare_spec(cpu.p, cpu.x, v), ..cpu }, b1)
        },
        Instruction::CPY(op) => {
            let (v, _, b1) = eval_spec::<B>(op, cpu, bus);
            (CPU { p: compare_spec(cpu.p, cpu.y, v), ..cpu }, b1)
        },
        _ => (cpu, bus),
    }
}

/// Whether `i` stores through its operand.
pub open spec fn is_modify_op(i: Instruction) -> bool {
    i is ASL || i is LSR || i is ROL || i is ROR || i is INC || i is DEC || i is STA || i is STX || i is STY || i is SAX
}

/// The state after executing `i`, an instruction that stores through its operand.
pub open spec fn modify_group_spec<B: Bus>(i: Instruction, add_cycles: bool, cpu: CPU, bus: B::V) -> (CPU, B::V) {
    match i {
        Instruction::ASL(op) => {
            let (v, _, b1) = eval_spec::<B>(op, cpu, bus);
            rmw_spec::<B>(op, ((v as int * 2) % 256 + 0int) as u8, v >= 128, false, cpu, b1)
        },
        Instruction::LSR(op) => {
            let (v, _, b1) = eval_spec::<B>(op, cpu, bus);
            rmw_spec::<B>(op, (v as int / 2 + 0int) as u8, v % 2 == 1, false, cpu, b1)
        },
        Instruction::ROL(op) => {
            let (v, _, b1) = eval_spec::<B>(op, cpu, bus);
            let result = ((v as int * 2) % 256 + (if cpu.p.carry_flag {
                1int
            } else {
                0int
            })) as u8;
            rmw_spec::<B>(op, result, v >= 128, true, cpu, b1)
        },
        Instruction::ROR(op) => {
            let (v, _, b1) = eval_spec::<B>(op, cpu, bus);
            let result = (v as int / 2 + (if cpu.p.carry_flag {
                128int
            } else {
                0int
            })) as u8;
            rmw_spec::<B>(op, result, v % 2 == 1, true, cpu, b1)
        },
        Instruction::INC(op) => {
            let (v, _, b1) = eval_spec::<B>(op, cpu, bus);
            let value = inc8(v);
            let (c2, b2) = set_operand_spec::<B>(op, value, cpu, b1);
            (CPU { p: with_nz(c2.p, value), ..c2 }, b2)
        },
        Instruction::DEC(op) => {
            let (v, _, b1) = eval_spec::<B>(op, cpu, bus);
            let value = dec8(v);
            let (c2, b2) = set_operand_spec::<B>(op, value, cpu, b1);
            (CPU { p: with_nz(c2.p, value), ..c2 }, b2)
        },
        Instruction::STA(op) => set_operand_spec::<B>(op, cpu.a, cpu, bus),
        Instruction::STX(op) => set_operand_spec::<B>(op, cpu.x, cpu, bus),
        Instruction::STY(op) => set_operand_spec::<B>(op, cpu.y, cpu, bus),
        Instruction::SAX(op) => set_operand_spec::<B>(op, cpu.a & cpu.x, cpu, bus),
        _ => (cpu, bus),
    }
}

/// Whether `i` branches, jumps, calls, returns or breaks.
pub open spec fn is_flow_op(i: Instruction) -> bool {
    i is BCC || i is BCS || i is BEQ || i is BMI || i is BNE || i is BPL || i is BVC || i is BVS || i is JMP || i is JSR || i is BRK || i is RTI || i is RTS
}

/// The state after executing `i`, an instruction that branches, jumps, calls, returns or breaks.
#[verifier::opaque]
pub open spec fn flow_group_spec<B: Bus>(i: Instruction, add_cycles: bool, cpu: CPU, bus: B::V) -> (CPU, B::V) {
    match i {
        Instruction::BCC(op) => branch_spec::<B>(!cpu.p.carry_flag, op, cpu, bus),
        Instruction::BCS(op) => branch_spec::<B>(cpu.p.carry_flag, op, cpu, bus),
        Instruction::BEQ(op) => branch_spec::<B>(cpu.p.zero_flag, op, cpu, bus),
        Instruction::BMI(op) => branch_spec::<B>(cpu.p.negative_flag, op, cpu, bus),
        Instruction::BNE(op) => branch_spec::<B>(!cpu.p.zero_flag, op, cpu, bus),
        Instruction::BPL(op) => branch_spec::<B>(!cpu.p.negative_flag, op, cpu, bus),
        Instruction::BVC(op) => branch_spec::<B>(!cpu.p.overflow_flag, op, cpu, bus),
        Instruction::BVS(op) => branch_spec::<B>(cpu.p.overflow_flag, op, cpu, bus),
        Instruction::JMP(op) => {
            let (c1, b1, _) = set_pc_spec::<B>(op, cpu, bus);
            (c1, b1)
        },
        Instruction::JSR(op) => {
            let return_point = ((cpu.pc as int + 65535) % 65536) as u16;
            let (c1, b1) = push_spec::<B>(hi_byte(return_point), cpu, bus);
            let (c2, b2) = push_spec::<B>(lo_byte(return_point), c1, b1);
            let (c3, b3, _) = set_pc_spec::<B>(op, c2, b2);
            (c3, b3)
        },
        Instruction::BRK => {
            let (c1, b1) = push_spec::<B>(hi_byte(cpu.pc), cpu, bus);
            let (c2, b2) = push_spec::<B>(lo_byte(cpu.pc), c1, b1);
            let c3 = CPU { p: CPUStatusRegister { break_flag: true, ..c2.p }, ..c2 };
            let (c4, b4) = push_spec::<B>(status_byte(c3.p) as u8, c3, b2);
            let (lo, b5) = read_spec::<B>(b4, 0xfffe);
            let (hi, b6) = read_spec::<B>(b5, 0xffff);
            (CPU { pc: word_spec(lo, hi), wait_cycles: 6, ..c4 }, b6)
        },
        Instruction::RTI => {
            let (status, c1, b1) = pull_spec::<B>(cpu, bus);
            let c2 = CPU { p: CPUStatusRegister { unused: true, ..status_from_byte(status) }, ..c1 };
            let (lo, c3, b3) = pull_spec::<B>(c2, b1);
            let (hi, c4, b4) = pull_spec::<B>(c3, b3);
            (CPU { pc: word_spec(lo, hi), ..c4 }, b4)
        },
        Instruction::RTS => {
            let (lo, c1, b1) = pull_spec::<B>(cpu, bus);
            let (hi, c2, b2) = pull_spec::<B>(c1, b1);
            (CPU { pc: ((word_spec(lo, hi) as int + 1) % 65536) as u16, ..c2 }, b2)
        },
        _ => (cpu, bus),
    }
}

/// Whether `i` works on registers, flags or the stack without operand.
pub open spec fn is_implied_op(i: Instruction) -> bool {
    i is CLC || i is CLD || i is CLI || i is CLV || i is SEC || i is SED || i is SEI || i is DEX || i is DEY || i is INX || i is INY || i is NOP || i is PHA || i is PHP || i is PLA || i is PLP || i is TAX || i is TAY || i is TSX || i is TXA || i is TXS || i is TYA
}

/// The state after executing `i`, an instruction that works on registers, flags or the stack without operand.
pub open spec fn implied_group_spec<B: Bus>(i: Instruction, add_cycles: bool, cpu: CPU, bus: B::V) -> (CPU, B::V) {
    match i {
        Instruction::CLC => (CPU { p: CPUStatusRegister { carry_flag: false, ..cpu.p }, ..cpu }, bus),
        Instruction::CLD => (
            CPU { p: CPUStatusRegister { decimal_flag: false, ..cpu.p }, ..cpu },
            bus,
        ),
        Instruction::CLI => (
            CPU { p: CPUStatusRegister { interrupt_disable: false, ..cpu.p }, ..cpu },
            bus,
        ),
        Instruction::CLV => (
            CPU { p: CPUStatusRegister { overflow_flag: false, ..cpu.p }, ..cpu },
            bus,
        ),
        Instruction::SEC => (CPU { p: CPUStatusRegister { carry_flag: true, ..cpu.p }, ..cpu }, bus),
        Instruction::SED => (
            CPU { p: CPUStatusRegister { decimal_flag: true, ..cpu.p }, ..cpu },
            bus,
        ),
        Instruction::SEI => (
            CPU { p: CPUStatusRegister { interrupt_disable: true, ..cpu.p }, ..cpu },
            bus,
        ),
        Instruction::DEX => (CPU { x: dec8(cpu.x), p: with_nz(cpu.p, dec8(cpu.x)), ..cpu }, bus),
        Instruction::DEY => (CPU { y: dec8(cpu.y), p: with_nz(cpu.p, dec8(cpu.y)), ..cpu }, bus),
        Instruction::INX => (CPU { x: inc8(cpu.x), p: with_nz(cpu.p, inc8(cpu.x)), ..cpu }, bus),
        Instruction::INY => (CPU { y: inc8(cpu.y), p: with_nz(cpu.p, inc8(cpu.y)), ..cpu }, bus),
        Instruction::NOP => (cpu, bus),
        Instruction::PHA => push_spec::<B>(cpu.a, cpu, bus),
        Instruction::PHP => {
            let pushed = CPUStatusRegister { break_flag: true, ..cpu.p };
            let (c1, b1) = push_spec::<B>(status_byte(pushed) as u8, cpu, bus);
            (c1, b1)
        },
        Instruction::PLA => {
            let (v, c1, b1) = pull_spec::<B>(cpu, bus);
            (CPU { a: v, p: with_nz(c1.p, v), ..c1 }, b1)
        },
        Instruction::PLP => {
            let (v, c1, b1) = pull_spec::<B>(cpu, bus);
            (
                CPU {
                    p: CPUStatusRegister {
                        break_flag: cpu.p.break_flag,
                        unused: true,
                        ..status_from_byte(v)
                    },
                    ..c1
                },
                b1,
            )
        },
        Instruction::TAX => (CPU { x: cpu.a, p: with_nz(cpu.p, cpu.a), ..cpu }, bus),
        Instruction::TAY => (CPU { y: cpu.a, p: with_nz(cpu.p, cpu.a), ..cpu }, bus),
        Instruction::TSX => (CPU { x: cpu.s, p: with_nz(cpu.p, cpu.s), ..cpu }, bus),
        Instruction::TXA => (CPU { a: cpu.x, p: with_nz(cpu.p, cpu.x), ..cpu }, bus),
        Instruction::TXS => (CPU { s: cpu.x, ..cpu }, bus),
        Instruction::TYA => (CPU { a: cpu.y, p: with_nz(cpu.p, cpu.y), ..cpu }, bus),
        _ => (cpu, bus),
    }
}

/// The state after executing `i`. Page-crossing cycles are charged only when
/// `add_cycles` holds.
pub open spec fn execute_spec<B: Bus>(i: Instruction, add_cycles: bool, cpu: CPU, bus: B::V) -> (
    CPU,
    B::V,
)
    decreases depth(i),
{
    if is_read_op(i) {
        read_group_spec::<B>(i, add_cycles, cpu, bus)
    } else if is_modify_op(i) {
        modify_group_spec::<B>(i, add_cycles, cpu, bus)
    } else if is_flow_op(i) {
        flow_group_spec::<B>(i, add_cycles, cpu, bus)
    } else if is_implied_op(i) {
        implied_group_spec::<B>(i, add_cycles, cpu, bus)
    } else {
        match i {
            Instruction::DCP(op) => {
                let (c1, b1) = execute_spec::<B>(Instruction::DEC(op), false, cpu, bus);
                execute_spec::<B>(Instruction::CMP(op), false, c1, b1)
            },
            Instruction::ISB(op) => {
                let (c1, b1) = execute_spec::<B>(Instruction::INC(op), false, cpu, bus);
                execute_spec::<B>(Instruction::SBC(op), false, c1, b1)
            },
            Instruction::LAX(op) => {
                let (c1, b1) = execute_spec::<B>(Instruction::LDA(op), true, cpu, bus);
                execute_spec::<B>(Instruction::TAX, false, c1, b1)
            },
            Instruction::RLA(op) => {
                let (c1, b1) = execute_spec::<B>(Instruction::ROL(op), false, cpu, bus);
                execute_spec::<B>(Instruction::AND(op), false, c1, b1)
            },
            Instruction::RRA(op) => {
                let (c1, b1) = execute_spec::<B>(Instruction::ROR(op), false, cpu, bus);
                execute_spec::<B>(Instruction::ADC(op), false, c1, b1)
            },
            Instruction::SLO(op) => {
                let (c1, b1) = execute_spec::<B>(Instruction::ASL(op), false, cpu, bus);
                execute_spec::<B>(Instruction::ORA(op), false, c1, b1)
            },
            Instruction::SRE(op) => {
                let (c1, b1) = execute_spec::<B>(Instruction::LSR(op), false, cpu, bus);
                execute_spec::<B>(Instruction::EOR(op), false, c1, b1)
            },
            Instruction::Illegal(inner, op) => {
                let (c1, b1) = if *inner is NOP && op is Some {
                    let (_, crossed, b) = eval_spec::<B>(op->0, cpu, bus);
                    (add_cycle_if(cpu, crossed && add_cycles), b)
                } else {
                    (cpu, bus)
                };
                execute_spec::<B>(*inner, false, c1, b1)
            },
            _ => (cpu, bus),
        }
    }
}

/// An instruction that branches, jumps, calls, returns or breaks executes by
/// the flow-control semantics.
pub proof fn lemma_execute_flow<B: Bus>(i: Instruction, add_cycles: bool, cpu: CPU, bus: B::V)
    requires
        is_flow_op(i),
    ensures
        execute_spec::<B>(i, add_cycles, cpu, bus) == flow_group_spec::<B>(i, add_cycles, cpu, bus),
{
}

/// An instruction that reads its operand executes by the reading semantics.
pub proof fn lemma_execute_read<B: Bus>(i: Instruction, add_cycles: bool, cpu: CPU, bus: B::V)
    requires
        is_read_op(i),
    ensures
        execute_spec::<B>(i, add_cycles, cpu, bus) == read_group_spec::<B>(i, add_cycles, cpu, bus),
{
}

/// An instruction that works on registers, flags or the stack without operand
/// executes by the implied-operand semantics.
pub proof fn lemma_execute_implied<B: Bus>(i: Instruction, add_cycles: bool, cpu: CPU, bus: B::V)
    requires
        is_implied_op(i),
    ensures
        execute_spec::<B>(i, add_cycles, cpu, bus) == implied_group_spec::<B>(i, add_cycles, cpu, bus),
{
}

/// The word after `w`, wrapping from 0xffff to 0.
pub open spec fn inc16(w: u16) -> u16 {
    ((w as int + 1) % 65536) as u16
}

/// The state after the CPU answers a non-maskable interrupt: the return address
/// and the flags (break clear) are pushed, interrupts are disabled, and execution
/// continues at the vector at 0xfffa.
pub open spec fn nmi_spec<B: Bus>(cpu: CPU, bus: B::V) -> (CPU, B::V) {
    let (c1, b1) = push_spec::<B>(hi_byte(cpu.pc), cpu, bus);
    let (c2, b2) = push_spec::<B>(lo_byte(cpu.pc), c1, b1);
    let c3 = CPU {
        p: CPUStatusRegister { break_flag: false, interrupt_disable: true, unused: true, ..c2.p },
        ..c2
    };
    let (c4, b4) = push_spec::<B>(status_byte(c3.p) as u8, c3, b2);
    let (lo, b5) = read_spec::<B>(b4, 0xfffa);
    let (hi, b6) = read_spec::<B>(b5, 0xfffb);
    (CPU { pc: word_spec(lo, hi), nmi_set: false, wait_cycles: 6, ..c4 }, b6)
}

/// The state after the CPU answers an interrupt request: the return address and
/// the flags as they were are pushed, interrupts are disabled, and execution
/// continues at the vector at 0xfffe.
pub open spec fn irq_spec<B: Bus>(cpu: CPU, bus: B::V) -> (CPU, B::V) {
    let (c1, b1) = push_spec::<B>(hi_byte(cpu.pc), cpu, bus);
    let (c2, b2) = push_spec::<B>(lo_byte(cpu.pc), c1, b1);
    let (c3, b3) = push_spec::<B>(status_byte(c2.p) as u8, c2, b2);
    let c4 = CPU {
        p: CPUStatusRegister { break_flag: false, interrupt_disable: true, unused: true, ..c3.p },
        ..c3
    };
    let (lo, b5) = read_spec::<B>(b3, 0xfffe);
    let (hi, b6) = read_spec::<B>(b5, 0xffff);
    (CPU { pc: word_spec(lo, hi), wait_cycles: 6, ..c4 }, b6)
}

/// Fetching the instruction at `pc`: the decoded instruction (`None` for an
/// unknown opcode), its opcode, and the state after reading the opcode and its
/// operand bytes, with `pc` past them.
pub open spec fn fetch_spec<B: Bus>(cpu: CPU, bus: B::V) -> (Option<Instruction>, u8, CPU, B::V) {
    let (opcode, b1) = read_spec::<B>(bus, cpu.pc);
    let pc1 = inc16(cpu.pc);
    match operand_size_spec(opcode) {
        None => (None, opcode, CPU { pc: pc1, ..cpu }, b1),
        Some(n) => if n == 0 {
            (decode_spec(opcode, 0, 0), opcode, CPU { pc: pc1, ..cpu }, b1)
        } else if n == 1 {
            let (lo, b2) = read_spec::<B>(b1, pc1);
            (decode_spec(opcode, lo, 0), opcode, CPU { pc: inc16(pc1), ..cpu }, b2)
        } else {
            let (lo, b2) = read_spec::<B>(b1, pc1);
            let (hi, b3) = read_spec::<B>(b2, inc16(pc1));
            (decode_spec(opcode, lo, hi), opcode, CPU { pc: inc16(inc16(pc1)), ..cpu }, b3)
        },
    }
}

/// The CPU and the bus once an instruction has been fetched at the start of a
/// tick that runs one (the program counter past it).
pub open spec fn fetched<B: Bus>(cpu: CPU, bus: B::V) -> (CPU, B::V) {
    let c0 = CPU { p: CPUStatusRegister { unused: true, ..cpu.p }, ..cpu };
    let (_, _, c1, b1) = fetch_spec::<B>(c0, bus);
    (c1, b1)
}

/// The state a reset leaves: registers cleared, the stack pointer at 0xfd, only the
/// unused flag set, seven wait cycles, and execution at the vector at 0xfffc.
pub open spec fn reset_spec<B: Bus>(cpu: CPU, bus: B::V) -> (CPU, B::V) {
    let (lo, b1) = read_spec::<B>(bus, 0xfffc);
    let (hi, b2) = read_spec::<B>(b1, 0xfffd);
    (
        CPU {
            pc: word_spec(lo, hi),
            a: 0,
            x: 0,
            y: 0,
            s: 0xfd,
            p: status_from_byte(0x20),
            wait_cycles: 7,
            ..cpu
        },
        b2,
    )
}

/// The CPU state at power-on.
pub open spec fn new_cpu_spec() -> CPU {
    CPU {
        wait_cycles: 0,
        p: CPUStatusRegister {
            carry_flag: false,
            zero_flag: false,
            interrupt_disable: true,
            decimal_flag: false,
            break_flag: false,
            unused: true,
            overflow_flag: false,
            negative_flag: false,
        },
        pc: 0xc000,
        a: 0,
        x: 0,
        y: 0,
        s: 0xfd,
        nmi_set: false,
        irq_set: false,
    }
}

/// Errors the CPU reports instead of executing.
#[derive(Debug, Clone, Copy, PartialEq, Eq, Structural)]
pub enum CPUError {
    /// The byte at the program counter is not an opcode the CPU knows.
    UnknownOpcode(u8),
}


/// Every instruction the decoder yields is well formed, nests at most three
/// deep and takes between 2 and 8 base cycles.
pub proof fn lemma_decode_well_formed(opcode: u8, lo: u8, hi: u8)
    ensures
        decode_spec(opcode, lo, hi) is Some <==> operand_size_spec(opcode) is Some,
        decode_spec(opcode, lo, hi) matches Some(i) ==> {
            &&& well_formed(i)
            &&& depth(i) <= 3
            &&& 2 <= cycles_spec(i)->0 <= 8
        },
{
    if opcode < 64 {
        lemma_decode_quarter_0(opcode, lo, hi);
    } else if opcode < 128 {
        lemma_decode_quarter_1(opcode, lo, hi);
    } else if opcode < 192 {
        lemma_decode_quarter_2(opcode, lo, hi);
    } else {
        lemma_decode_quarter_3(opcode, lo, hi);
    }
}

proof fn lemma_decode_quarter_0(opcode: u8, lo: u8, hi: u8)
    requires
        0 <= opcode < 64,
    ensures
        decode_spec(opcode, lo, hi) matches Some(i) ==> {
            &&& well_formed(i)
            &&& depth(i) <= 3
            &&& 2 <= cycles_spec(i)->0 <= 8
        },
{
    reveal_with_fuel(cycles_spec, 2);
    reveal_with_fuel(executable, 2);
    reveal_with_fuel(depth, 2);
}

proof fn lemma_decode_quarter_1(opcode: u8, lo: u8, hi: u8)
    requires
        64 <= opcode < 128,
    ensures
        decode_spec(opcode, lo, hi) matches Some(i) ==> {
            &&& well_formed(i)
            &&& depth(i) <= 3
            &&& 2 <= cycles_spec(i)->0 <= 8
        },
{
    reveal_with_fuel(cycles_spec, 2);
    reveal_with_fuel(executable, 2);
    reveal_with_fuel(depth, 2);
}

proof fn lemma_decode_quarter_2(opcode: u8, lo: u8, hi: u8)
    requires
        128 <= opcode < 192,
    ensures
        decode_spec(opcode, lo, hi) matches Some(i) ==> {
            &&& well_formed(i)
            &&& depth(i) <= 3
            &&& 2 <= cycles_spec(i)->0 <= 8
        },
{
    reveal_with_fuel(cycles_spec, 2);
    reveal_with_fuel(executable, 2);
    reveal_with_fuel(depth, 2);
}

proof fn lemma_decode_quarter_3(opcode: u8, lo: u8, hi: u8)
    requires
        192 <= opcode < 256,
    ensures
        decode_spec(opcode, lo, hi) matches Some(i) ==> {
            &&& well_formed(i)
            &&& depth(i) <= 3
            &&& 2 <= cycles_spec(i)->0 <= 8
        },
{
    reveal_with_fuel(cycles_spec, 2);
    reveal_with_fuel(executable, 2);
    reveal_with_fuel(depth, 2);
}

impl CPU {
    /// The CPU at power-on.
    pub fn new() -> (r: CPU)
        ensures
            r == new_cpu_spec(),
    {
        CPU {
            wait_cycles: 0,
            p: CPUStatusRegister {
                carry_flag: false,
                zero_flag: false,
                interrupt_disable: true,
                decimal_flag: false,
                break_flag: false,
                unused: true,
                overflow_flag: false,
                negative_flag: false,
            },
            pc: 0xc000,
            a: 0,
            x: 0,
            y: 0,
            s: 0xfd,
            nmi_set: false,
            irq_set: false,
        }
    }

    /// The status register as a byte; bit 5 always reads as 1.
    pub fn get_status_register(&self) -> (r: u8)
        ensures
            r as int == status_byte(CPUStatusRegister { unused: true, ..self.p }),
    {
        let mut p = self.p;
        p.unused = true;
        p.to_byte()
    }

    /// Loads the status register from a byte; bit 5 of the byte is ignored.
    pub fn set_status_register(&mut self, value: u8)
        ensures
            *final(self) == (CPU {
                p: CPUStatusRegister { unused: old(self).p.unused, ..status_from_byte(value) },
                ..*old(self)
            }),
    {
        let unused = self.p.unused;
        self.p = CPUStatusRegister::from_byte(value);
        self.p.unused = unused;
    }

    /// Stores `value` through the operand `op`: into the accumulator, or to the
    /// address the operand names.
    pub fn set_operand<B: Bus>(op: &Operand, value: u8, bus: &mut B, cpu: &mut CPU)
        requires
            op.is_writable(),
        ensures
            (*final(cpu), final(bus)@) == set_operand_spec::<B>(*op, value, *old(cpu), old(bus)@),
    {
        match op {
            Operand::Accumulator => cpu.a = value,
            _ => {
                let addr = op.get_addr(&*cpu, bus).0;
                bus.write(addr, value);
            },
        }
    }

    /// Jumps through `addr`; returns whether a relative jump crossed a page.
    pub fn set_pc<B: Bus>(addr: &Operand, bus: &mut B, cpu: &mut CPU) -> (crossed: bool)
        requires
            addr is Absolute || addr is Indirect || addr is Relative,
        ensures
            (*final(cpu), final(bus)@, crossed) == set_pc_spec::<B>(*addr, *old(cpu), old(bus)@),
    {
        match addr {
            Operand::Relative(offset) => {
                let new_pc = ((cpu.pc as i32 + *offset as i32 + 65536) % 65536) as u16;
                let page_boundary_crossed = new_pc / 256 != cpu.pc / 256;
                cpu.pc = new_pc;
                page_boundary_crossed
            },
            _ => {
                cpu.pc = addr.get_addr(&*cpu, bus).0;
                false
            },
        }
    }

    /// The bytes on the stack from the stack pointer up to 0x01fd (one byte when
    /// the pointer is above that).
    pub fn get_stack_dump<B: Bus>(&self, bus: &B) -> (r: Vec<u8>)
        requires
            self.s < 255,
        ensures
            r@.len() == (if self.s <= 0xfd {
                0xfe - self.s
            } else {
                1
            }),
            forall|i: int| 0 <= i < r@.len() ==> r@[i] == peek::<B>(bus@, (0x100 + self.s + i) as u16),
    {
        let mut values: Vec<u8> = Vec::new();
        let mut addr: u8 = self.s;
        loop
            invariant_except_break
                addr <= 0xfd || addr == self.s,
            invariant
                self.s < 255,
                self.s <= addr,
                values@.len() == addr - self.s,
                forall|i: int|
                    0 <= i < values@.len() ==> values@[i] == peek::<B>(bus@, (0x100 + self.s + i) as u16),
            ensures
                values@.len() == (if self.s <= 0xfd {
                    0xfe - self.s
                } else {
                    1
                }),
                forall|i: int|
                    0 <= i < values@.len() ==> values@[i] == peek::<B>(bus@, (0x100 + self.s + i) as u16),
            decreases 256 - addr,
        {
            values.push(bus.read_readonly(addr as u16 + 0x100));
            addr = addr + 1;
            if addr > 0xfd {
                break;
            }
        }
        values
    }

    fn push_stack<B: Bus>(value: u8, bus: &mut B, cpu: &mut CPU)
        ensures
            (*final(cpu), final(bus)@) == push_spec::<B>(value, *old(cpu), old(bus)@),
    {
        let addr = cpu.s as u16 + 0x100;
        bus.write(addr, value);
        cpu.s = if cpu.s == 0 {
            255
        } else {
            cpu.s - 1
        };
    }

    fn pull_stack<B: Bus>(bus: &mut B, cpu: &mut CPU) -> (r: u8)
        ensures
            (r, *final(cpu), final(bus)@) == pull_spec::<B>(*old(cpu), old(bus)@),
    {
        cpu.s = if cpu.s == 255 {
            0
        } else {
            cpu.s + 1
        };
        let addr = cpu.s as u16 + 0x100;
        bus.read(addr)
    }

    /// Resets the CPU from the reset vector.
    pub fn reset<B: Bus>(bus: &mut B, cpu: &mut CPU)
        ensures
            (*final(cpu), final(bus)@) == reset_spec::<B>(*old(cpu), old(bus)@),
    {
        let low = bus.read(0xfffc);
        let high = bus.read(0xfffd);
        let reset_vector = make_word(low, high);
        CPU::set_pc(&Operand::Absolute(reset_vector), bus, cpu);
        cpu.a = 0;
        cpu.x = 0;
        cpu.y = 0;
        cpu.s = 0xfd;
        cpu.p = CPUStatusRegister::from_byte(0x20);
        cpu.wait_cycles = 7;
    }

    fn read_arg<B: Bus>(op: &Operand, add_cycles: bool, bus: &mut B, cpu: &mut CPU) -> (r: u8)
        requires
            op.is_readable(),
            old(cpu).wait_cycles < 255,
        ensures
            (r, *final(cpu), final(bus)@) == read_arg_spec::<B>(*op, add_cycles, *old(cpu), old(bus)@),
    {
        let (value, page_boundary_crossed) = op.eval(&*cpu, bus);
        if page_boundary_crossed && add_cycles {
            cpu.wait_cycles = cpu.wait_cycles + 1;
        }
        value
    }

    fn branch<B: Bus>(cond: bool, addr: &Operand, bus: &mut B, cpu: &mut CPU)
        requires
            addr is Absolute || addr is Indirect || addr is Relative,
            old(cpu).wait_cycles < 254,
        ensures
            (*final(cpu), final(bus)@) == branch_spec::<B>(cond, *addr, *old(cpu), old(bus)@),
    {
        if cond {
            cpu.wait_cycles = cpu.wait_cycles + 1;
            if CPU::set_pc(addr, bus, cpu) {
                cpu.wait_cycles = cpu.wait_cycles + 1;
            }
        }
    }

    fn add_with_carry(cpu: &mut CPU, value: u8)
        ensures
            *final(cpu) == adc_spec(*old(cpu), value),
    {
        let carry: u16 = if cpu.p.carry_flag {
            1
        } else {
            0
        };
        let result: u16 = cpu.a as u16 + value as u16 + carry;
        let r8 = (result % 256) as u8;
        cpu.p.overflow_flag = (!(cpu.a ^ value) & (cpu.a ^ r8)) & 0x80 > 0;
        cpu.p.carry_flag = result > 255;
        cpu.a = r8;
        cpu.p.zero_flag = cpu.a == 0;
        cpu.p.negative_flag = cpu.a >= 128;
    }

    fn compare(p: &mut CPUStatusRegister, reg: u8, value: u8)
        ensures
            *final(p) == compare_spec(*old(p), reg, value),
            final(p).carry_flag == (reg >= value),
            final(p).zero_flag == (reg == value),
    {
        p.carry_flag = reg >= value;
        p.zero_flag = reg == value;
        p.negative_flag = (reg as u16 + 256 - value as u16) % 256 >= 128;
    }

    fn store_result<B: Bus>(
        op: &Operand,
        result: u8,
        carry: bool,
        zero_from_a: bool,
        bus: &mut B,
        cpu: &mut CPU,
    )
        requires
            op.is_writable(),
        ensures
            (*final(cpu), final(bus)@) == rmw_spec::<B>(
                *op,
                result,
                carry,
                zero_from_a,
                *old(cpu),
                old(bus)@,
            ),
    {
        CPU::set_operand(op, result, bus, cpu);
        cpu.p.carry_flag = carry;
        cpu.p.negative_flag = result >= 128;
        cpu.p.zero_flag = if zero_from_a {
            cpu.a == 0
        } else {
            result == 0
        };
    }

    /// Executes `instruction`. Page-crossing cycles are charged only when
    /// `add_page_boundary_cross_cycles` holds.
    fn execute_instruction<B: Bus>(
        instruction: &Instruction,
        add_page_boundary_cross_cycles: bool,
        bus: &mut B,
        cpu: &mut CPU,
    )
        requires
            executable(*instruction),
            old(cpu).wait_cycles as int + 2 * depth(*instruction) <= 240,
        ensures
            (*final(cpu), final(bus)@) == execute_spec::<B>(
                *instruction,
                add_page_boundary_cross_cycles,
                *old(cpu),
                old(bus)@,
            ),
        decreases depth(*instruction), 1nat,
    {
        let add = add_page_boundary_cross_cycles;
        match instruction {
            Instruction::ADC(_) | Instruction::AND(_) | Instruction::CMP(_) | Instruction::EOR(_) | Instruction::LDA(_) => {
                CPU::exec_read_0(instruction, add, bus, cpu);
            },
            Instruction::LDX(_) | Instruction::LDY(_) | Instruction::ORA(_) | Instruction::SBC(_) | Instruction::BIT(_) => {
                CPU::exec_read_1(instruction, add, bus, cpu);
            },
            Instruction::CPX(_) | Instruction::CPY(_) => {
                CPU::exec_read_2(instruction, add, bus, cpu);
            },
            Instruction::ASL(_) | Instruction::LSR(_) | Instruction::ROL(_) | Instruction::ROR(_) | Instruction::INC(_) => {
                CPU::exec_modify_0(instruction, add, bus, cpu);
            },
            Instruction::DEC(_) | Instruction::STA(_) | Instruction::STX(_) | Instruction::STY(_) | Instruction::SAX(_) => {
                CPU::exec_modify_1(instruction, add, bus, cpu);
            },
            Instruction::BCC(_) | Instruction::BCS(_) | Instruction::BEQ(_) | Instruction::BMI(_) | Instruction::BNE(_) => {
                CPU::exec_flow_0(instruction, add, bus, cpu);
            },
            Instruction::BPL(_) | Instruction::BVC(_) | Instruction::BVS(_) | Instruction::JMP(_) | Instruction::JSR(_) => {
                CPU::exec_flow_1(instruction, add, bus, cpu);
            },
            Instruction::BRK | Instruction::RTI | Instruction::RTS => {
                CPU::exec_flow_2(instruction, add, bus, cpu);
            },
            Instruction::CLC | Instruction::CLD | Instruction::CLI | Instruction::CLV | Instruction::SEC => {
                CPU::exec_implied_0(instruction, add, bus, cpu);
            },
            Instruction::SED | Instruction::SEI | Instruction::DEX | Instruction::DEY | Instruction::INX => {
                CPU::exec_implied_1(instruction, add, bus, cpu);
            },
            Instruction::INY | Instruction::NOP | Instruction::PHA | Instruction::PHP | Instruction::PLA => {
                CPU::exec_implied_2(instruction, add, bus, cpu);
            },
            Instruction::PLP | Instruction::TAX | Instruction::TAY | Instruction::TSX | Instruction::TXA => {
                CPU::exec_implied_3(instruction, add, bus, cpu);
            },
            Instruction::TXS | Instruction::TYA => {
                CPU::exec_implied_4(instruction, add, bus, cpu);
            },
            _ => {
                CPU::exec_combined(instruction, add, bus, cpu);
            },
        }
    }

    /// Executes an instruction that reads its operand into a register or the flags (ADC, AND, CMP, EOR, LDA).
    #[verifier::rlimit(50)]
    fn exec_read_0<B: Bus>(
        instruction: &Instruction,
        add_page_boundary_cross_cycles: bool,
        bus: &mut B,
        cpu: &mut CPU,
    )
        requires
            executable(*instruction),
            old(cpu).wait_cycles as int + 2 * depth(*instruction) <= 240,
            is_read_op(*instruction),
            *instruction is ADC || *instruction is AND || *instruction is CMP || *instruction is EOR || *instruction is LDA,
        ensures
            (*final(cpu), final(bus)@) == execute_spec::<B>(
                *instruction,
                add_page_boundary_cross_cycles,
                *old(cpu),
                old(bus)@,
            ),
    {
        let add = add_page_boundary_cross_cycles;
        match instruction {
            Instruction::ADC(op) => {
                let value = CPU::read_arg(op, add, bus, cpu);
                CPU::add_with_carry(cpu, value);
            },
            Instruction::AND(op) => {
                let value = CPU::read_arg(op, add, bus, cpu);
                cpu.a = cpu.a & value;
                CPU::set_nz(&mut cpu.p, cpu.a);
            },
            Instruction::CMP(op) => {
                let value = CPU::read_arg(op, add, bus, cpu);
                let a = cpu.a;
                CPU::compare(&mut cpu.p, a, value);
            },
            Instruction::EOR(op) => {
                let value = CPU::read_arg(op, add, bus, cpu);
                cpu.a = cpu.a ^ value;
                CPU::set_nz(&mut cpu.p, cpu.a);
            },
            Instruction::LDA(addr) => {
                let value = CPU::read_arg(addr, add, bus, cpu);
                cpu.a = value;
                CPU::set_nz(&mut cpu.p, value);
            },
            _ => {},
        }
    }

    /// Executes an instruction that reads its operand into a register or the flags (LDX, LDY, ORA, SBC, BIT).
    #[verifier::rlimit(50)]
    fn exec_read_1<B: Bus>(
        instruction: &Instruction,
        add_page_boundary_cross_cycles: bool,
        bus: &mut B,
        cpu: &mut CPU,
    )
        requires
            executable(*instruction),
            old(cpu).wait_cycles as int + 2 * depth(*instruction) <= 240,
            is_read_op(*instruction),
            *instruction is LDX || *instruction is LDY || *instruction is ORA || *instruction is SBC || *instruction is BIT,
        ensures
            (*final(cpu), final(bus)@) == execute_spec::<B>(
                *instruction,
                add_page_boundary_cross_cycles,
                *old(cpu),
                old(bus)@,
            ),
    {
        let add = add_page_boundary_cross_cycles;
        match instruction {
            Instruction::LDX(addr) => {
                let value = CPU::read_arg(addr, add, bus, cpu);
                cpu.x = value;
                CPU::set_nz(&mut cpu.p, value);
            },
            Instruction::LDY(addr) => {
                let value = CPU::read_arg(addr, add, bus, cpu);
                cpu.y = value;
                CPU::set_nz(&mut cpu.p, value);
            },
            Instruction::ORA(op) => {
                let value = CPU::read_arg(op, add, bus, cpu);
                cpu.a = cpu.a | value;
                CPU::set_nz(&mut cpu.p, cpu.a);
            },
            Instruction::SBC(op) => {
                let value = CPU::read_arg(op, add, bus, cpu);
                CPU::add_with_carry(cpu, value ^ 0xff);
            },
            Instruction::BIT(addr) => {
                let (value, _) = addr.eval(&*cpu, bus);
                cpu.p.zero_flag = (value & cpu.a) == 0;
                cpu.p.overflow_flag = (value / 64) % 2 == 1;
                cpu.p.negative_flag = value >= 128;
            },
            _ => {},
        }
    }

    /// Executes an instruction that reads its operand into a register or the flags (CPX, CPY).
    #[verifier::rlimit(50)]
    fn exec_read_2<B: Bus>(
        instruction: &Instruction,
        add_page_boundary_cross_cycles: bool,
        bus: &mut B,
        cpu: &mut CPU,
    )
        requires
            executable(*instruction),
            old(cpu).wait_cycles as int + 2 * depth(*instruction) <= 240,
            is_read_op(*instruction),
            *instruction is CPX || *instruction is CPY,
        ensures
            (*final(cpu), final(bus)@) == execute_spec::<B>(
                *instruction,
                add_page_boundary_cross_cycles,
                *old(cpu),
                old(bus)@,
            ),
    {
        let add = add_page_boundary_cross_cycles;
        match instruction {
            Instruction::CPX(op) => {
                let (value, _) = op.eval(&*cpu, bus);
                let x = cpu.x;
                CPU::compare(&mut cpu.p, x, value);
            },
            Instruction::CPY(op) => {
                let (value, _) = op.eval(&*cpu, bus);
                let y = cpu.y;
                CPU::compare(&mut cpu.p, y, value);
            },
            _ => {},
        }
    }

    /// Executes an instruction that stores through its operand (ASL, LSR, ROL, ROR, INC).
    #[verifier::rlimit(50)]
    fn exec_modify_0<B: Bus>(
        instruction: &Instruction,
        add_page_boundary_cross_cycles: bool,
        bus: &mut B,
        cpu: &mut CPU,
    )
        requires
            executable(*instruction),
            old(cpu).wait_cycles as int + 2 * depth(*instruction) <= 240,
            is_modify_op(*instruction),
            *instruction is ASL || *instruction is LSR || *instruction is ROL || *instruction is ROR || *instruction is INC,
        ensures
            (*final(cpu), final(bus)@) == execute_spec::<B>(
                *instruction,
                add_page_boundary_cross_cycles,
                *old(cpu),
                old(bus)@,
            ),
    {
        let add = add_page_boundary_cross_cycles;
        match instruction {
            Instruction::ASL(op) => {
                let (value, _) = op.eval(&*cpu, bus);
                let result = CPU::shift_left(value, false);
                CPU::store_result(op, result, value >= 128, false, bus, cpu);
            },
            Instruction::LSR(op) => {
                let (value, _) = op.eval(&*cpu, bus);
                let result = CPU::shift_right(value, false);
                CPU::store_result(op, result, value % 2 == 1, false, bus, cpu);
            },
            Instruction::ROL(op) => {
                let (value, _) = op.eval(&*cpu, bus);
                let result = CPU::shift_left(value, cpu.p.carry_flag);
                CPU::store_result(op, result, value >= 128, true, bus, cpu);
            },
            Instruction::ROR(op) => {
                let (value, _) = op.eval(&*cpu, bus);
                let result = CPU::shift_right(value, cpu.p.carry_flag);
                CPU::store_result(op, result, value % 2 == 1, true, bus, cpu);
            },
            Instruction::INC(op) => {
                let (v, _) = op.eval(&*cpu, bus);
                let value = CPU::inc_byte(v);
                CPU::set_operand(op, value, bus, cpu);
                CPU::set_nz(&mut cpu.p, value);
            },
            _ => {},
        }
    }

    /// Executes an instruction that stores through its operand (DEC, STA, STX, STY, SAX).
    #[verifier::rlimit(50)]
    fn exec_modify_1<B: Bus>(
        instruction: &Instruction,
        add_page_boundary_cross_cycles: bool,
        bus: &mut B,
        cpu: &mut CPU,
    )
        requires
            executable(*instruction),
            old(cpu).wait_cycles as int + 2 * depth(*instruction) <= 240,
            is_modify_op(*instruction),
            *instruction is DEC || *instruction is STA || *instruction is STX || *instruction is STY || *instruction is SAX,
        ensures
            (*final(cpu), final(bus)@) == execute_spec::<B>(
                *instruction,
                add_page_boundary_cross_cycles,
                *old(cpu),
                old(bus)@,
            ),
    {
        let add = add_page_boundary_cross_cycles;
        match instruction {
            Instruction::DEC(op) => {
                let (v, _) = op.eval(&*cpu, bus);
                let value = CPU::dec_byte(v);
                CPU::set_operand(op, value, bus, cpu);
                CPU::set_nz(&mut cpu.p, value);
            },
            Instruction::STA(addr) => {
                let a = cpu.a;
                CPU::set_operand(addr, a, bus, cpu);
            },
            Instruction::STX(addr) => {
                let x = cpu.x;
                CPU::set_operand(addr, x, bus, cpu);
            },
            Instruction::STY(addr) => {
                let y = cpu.y;
                CPU::set_operand(addr, y, bus, cpu);
            },
            Instruction::SAX(addr) => {
                let value = cpu.a & cpu.x;
                CPU::set_operand(addr, value, bus, cpu);
            },
            _ => {},
        }
    }

    /// Executes an instruction that branches, jumps, calls, returns or breaks (BCC, BCS, BEQ, BMI, BNE).
    #[verifier::rlimit(50)]
    fn exec_flow_0<B: Bus>(
        instruction: &Instruction,
        add_page_boundary_cross_cycles: bool,
        bus: &mut B,
        cpu: &mut CPU,
    )
        requires
            executable(*instruction),
            old(cpu).wait_cycles as int + 2 * depth(*instruction) <= 240,
            is_flow_op(*instruction),
            *instruction is BCC || *instruction is BCS || *instruction is BEQ || *instruction is BMI || *instruction is BNE,
        ensures
            (*final(cpu), final(bus)@) == execute_spec::<B>(
                *instruction,
                add_page_boundary_cross_cycles,
                *old(cpu),
                old(bus)@,
            ),
    {
        reveal(flow_group_spec);
        let add = add_page_boundary_cross_cycles;
        match instruction {
            Instruction::BCC(addr) => {
                let cond = !cpu.p.carry_flag;
                CPU::branch(cond, addr, bus, cpu);
            },
            Instruction::BCS(addr) => {
                let cond = cpu.p.carry_flag;
                CPU::branch(cond, addr, bus, cpu);
            },
            Instruction::BEQ(addr) => {
                let cond = cpu.p.zero_flag;
                CPU::branch(cond, addr, bus, cpu);
            },
            Instruction::BMI(addr) => {
                let cond = cpu.p.negative_flag;
                CPU::branch(cond, addr, bus, cpu);
            },
            Instruction::BNE(addr) => {
                let cond = !cpu.p.zero_flag;
                CPU::branch(cond, addr, bus, cpu);
            },
            _ => {},
        }
    }

    /// Executes an instruction that branches, jumps, calls, returns or breaks (BPL, BVC, BVS, JMP, JSR).
    #[verifier::rlimit(50)]
    fn exec_flow_1<B: Bus>(
        instruction: &Instruction,
        add_page_boundary_cross_cycles: bool,
        bus: &mut B,
        cpu: &mut CPU,
    )
        requires
            executable(*instruction),
            old(cpu).wait_cycles as int + 2 * depth(*instruction) <= 240,
            is_flow_op(*instruction),
            *instruction is BPL || *instruction is BVC || *instruction is BVS || *instruction is JMP || *instruction is JSR,
        ensures
            (*final(cpu), final(bus)@) == execute_spec::<B>(
                *instruction,
                add_page_boundary_cross_cycles,
                *old(cpu),
                old(bus)@,
            ),
    {
        reveal(flow_group_spec);
        let add = add_page_boundary_cross_cycles;
        match instruction {
            Instruction::BPL(addr) => {
                let cond = !cpu.p.negative_flag;
                CPU::branch(cond, addr, bus, cpu);
            },
            Instruction::BVC(addr) => {
                let cond = !cpu.p.overflow_flag;
                CPU::branch(cond, addr, bus, cpu);
            },
            Instruction::BVS(addr) => {
                let cond = cpu.p.overflow_flag;
                CPU::branch(cond, addr, bus, cpu);
            },
            Instruction::JMP(addr) => {
                CPU::set_pc(addr, bus, cpu);
            },
            Instruction::JSR(addr) => {
                let return_point = CPU::dec_word(cpu.pc);
                let low = CPU::low_byte(return_point);
                let high = CPU::high_byte(return_point);
                CPU::push_stack(high, bus, cpu);
                CPU::push_stack(low, bus, cpu);
                CPU::set_pc(addr, bus, cpu);
            },
            _ => {},
        }
    }

    /// Executes an instruction that branches, jumps, calls, returns or breaks (BRK, RTI, RTS).
    #[verifier::rlimit(50)]
    fn exec_flow_2<B: Bus>(
        instruction: &Instruction,
        add_page_boundary_cross_cycles: bool,
        bus: &mut B,
        cpu: &mut CPU,
    )
        requires
            executable(*instruction),
            old(cpu).wait_cycles as int + 2 * depth(*instruction) <= 240,
            is_flow_op(*instruction),
            *instruction is BRK || *instruction is RTI || *instruction is RTS,
        ensures
            (*final(cpu), final(bus)@) == execute_spec::<B>(
                *instruction,
                add_page_boundary_cross_cycles,
                *old(cpu),
                old(bus)@,
            ),
    {
        reveal(flow_group_spec);
        let add = add_page_boundary_cross_cycles;
        match instruction {
            Instruction::BRK => {
                let pc = cpu.pc;
                CPU::push_stack(CPU::high_byte(pc), bus, cpu);
                CPU::push_stack(CPU::low_byte(pc), bus, cpu);
                cpu.p.break_flag = true;
                let status = cpu.p.to_byte();
                CPU::push_stack(status, bus, cpu);
                let low = bus.read(0xfffe);
                let high = bus.read(0xffff);
                let irq_vector = make_word(low, high);
                CPU::set_pc(&Operand::Absolute(irq_vector), bus, cpu);
                cpu.wait_cycles = 6;
            },
            Instruction::RTI => {
                let status = CPU::pull_stack(bus, cpu);
                cpu.p = CPUStatusRegister::from_byte(status);
                cpu.p.unused = true;
                let low = CPU::pull_stack(bus, cpu);
                let high = CPU::pull_stack(bus, cpu);
                CPU::set_pc(&Operand::Absolute(make_word(low, high)), bus, cpu);
            },
            Instruction::RTS => {
                let low = CPU::pull_stack(bus, cpu);
                let high = CPU::pull_stack(bus, cpu);
                let target = make_word(low, high);
                let target = CPU::inc_word(target);
                CPU::set_pc(&Operand::Absolute(target), bus, cpu);
            },
            _ => {},
        }
    }

    /// Executes an instruction that works on registers, flags or the stack without operand (CLC, CLD, CLI, CLV, SEC).
    #[verifier::rlimit(50)]
    fn exec_implied_0<B: Bus>(
        instruction: &Instruction,
        add_page_boundary_cross_cycles: bool,
        bus: &mut B,
        cpu: &mut CPU,
    )
        requires
            executable(*instruction),
            old(cpu).wait_cycles as int + 2 * depth(*instruction) <= 240,
            is_implied_op(*instruction),
            *instruction is CLC || *instruction is CLD || *instruction is CLI || *instruction is CLV || *instruction is SEC,
        ensures
            (*final(cpu), final(bus)@) == execute_spec::<B>(
                *instruction,
                add_page_boundary_cross_cycles,
                *old(cpu),
                old(bus)@,
            ),
    {
        let add = add_page_boundary_cross_cycles;
        match instruction {
            Instruction::CLC => {
                cpu.p.carry_flag = false;
            },
            Instruction::CLD => {
                cpu.p.decimal_flag = false;
            },
            Instruction::CLI => {
                cpu.p.interrupt_disable = false;
            },
            Instruction::CLV => {
                cpu.p.overflow_flag = false;
            },
            Instruction::SEC => {
                cpu.p.carry_flag = true;
            },
            _ => {},
        }
    }

    /// Executes an instruction that works on registers, flags or the stack without operand (SED, SEI, DEX, DEY, INX).
    #[verifier::rlimit(50)]
    fn exec_implied_1<B: Bus>(
        instruction: &Instruction,
        add_page_boundary_cross_cycles: bool,
        bus: &mut B,
        cpu: &mut CPU,
    )
        requires
            executable(*instruction),
            old(cpu).wait_cycles as int + 2 * depth(*instruction) <= 240,
            is_implied_op(*instruction),
            *instruction is SED || *instruction is SEI || *instruction is DEX || *instruction is DEY || *instruction is INX,
        ensures
            (*final(cpu), final(bus)@) == execute_spec::<B>(
                *instruction,
                add_page_boundary_cross_cycles,
                *old(cpu),
                old(bus)@,
            ),
    {
        let add = add_page_boundary_cross_cycles;
        match instruction {
            Instruction::SED => {
                cpu.p.decimal_flag = true;
            },
            Instruction::SEI => {
                cpu.p.interrupt_disable = true;
            },
            Instruction::DEX => {
                cpu.x = CPU::dec_byte(cpu.x);
                let x = cpu.x;
                CPU::set_nz(&mut cpu.p, x);
            },
            Instruction::DEY => {
                cpu.y = CPU::dec_byte(cpu.y);
                let y = cpu.y;
                CPU::set_nz(&mut cpu.p, y);
            },
            Instruction::INX => {
                cpu.x = CPU::inc_byte(cpu.x);
                let x = cpu.x;
                CPU::set_nz(&mut cpu.p, x);
            },
            _ => {},
        }
    }

    /// Executes an instruction that works on registers, flags or the stack without operand (INY, NOP, PHA, PHP, PLA).
    #[verifier::rlimit(50)]
    fn exec_implied_2<B: Bus>(
        instruction: &Instruction,
        add_page_boundary_cross_cycles: bool,
        bus: &mut B,
        cpu: &mut CPU,
    )
        requires
            executable(*instruction),
            old(cpu).wait_cycles as int + 2 * depth(*instruction) <= 240,
            is_implied_op(*instruction),
            *instruction is INY || *instruction is NOP || *instruction is PHA || *instruction is PHP || *instruction is PLA,
        ensures
            (*final(cpu), final(bus)@) == execute_spec::<B>(
                *instruction,
                add_page_boundary_cross_cycles,
                *old(cpu),
                old(bus)@,
            ),
    {
        let add = add_page_boundary_cross_cycles;
        match instruction {
            Instruction::INY => {
                cpu.y = CPU::inc_byte(cpu.y);
                let y = cpu.y;
                CPU::set_nz(&mut cpu.p, y);
            },
            Instruction::NOP => {},
            Instruction::PHA => {
                let a = cpu.a;
                CPU::push_stack(a, bus, cpu);
            },
            Instruction::PHP => {
                let prev_break_flag = cpu.p.break_flag;
                cpu.p.break_flag = true;
                let status = cpu.p.to_byte();
                CPU::push_stack(status, bus, cpu);
                cpu.p.break_flag = prev_break_flag;
            },
            Instruction::PLA => {
                cpu.a = CPU::pull_stack(bus, cpu);
                CPU::set_nz(&mut cpu.p, cpu.a);
            },
            _ => {},
        }
    }

    /// Executes an instruction that works on registers, flags or the stack without operand (PLP, TAX, TAY, TSX, TXA).
    #[verifier::rlimit(50)]
    fn exec_implied_3<B: Bus>(
        instruction: &Instruction,
        add_page_boundary_cross_cycles: bool,
        bus: &mut B,
        cpu: &mut CPU,
    )
        requires
            executable(*instruction),
            old(cpu).wait_cycles as int + 2 * depth(*instruction) <= 240,
            is_implied_op(*instruction),
            *instruction is PLP || *instruction is TAX || *instruction is TAY || *instruction is TSX || *instruction is TXA,
        ensures
            (*final(cpu), final(bus)@) == execute_spec::<B>(
                *instruction,
                add_page_boundary_cross_cycles,
                *old(cpu),
                old(bus)@,
            ),
    {
        let add = add_page_boundary_cross_cycles;
        match instruction {
            Instruction::PLP => {
                let prev_break_flag = cpu.p.break_flag;
                let value = CPU::pull_stack(bus, cpu);
                cpu.p = CPUStatusRegister::from_byte(value);
                cpu.p.break_flag = prev_break_flag;
                cpu.p.unused = true;
            },
            Instruction::TAX => {
                cpu.x = cpu.a;
                CPU::set_nz(&mut cpu.p, cpu.x);
            },
            Instruction::TAY => {
                cpu.y = cpu.a;
                CPU::set_nz(&mut cpu.p, cpu.y);
            },
            Instruction::TSX => {
                cpu.x = cpu.s;
                CPU::set_nz(&mut cpu.p, cpu.x);
            },
            Instruction::TXA => {
                cpu.a = cpu.x;
                CPU::set_nz(&mut cpu.p, cpu.a);
            },
            _ => {},
        }
    }

    /// Executes an instruction that works on registers, flags or the stack without operand (TXS, TYA).
    #[verifier::rlimit(50)]
    fn exec_implied_4<B: Bus>(
        instruction: &Instruction,
        add_page_boundary_cross_cycles: bool,
        bus: &mut B,
        cpu: &mut CPU,
    )
        requires
            executable(*instruction),
            old(cpu).wait_cycles as int + 2 * depth(*instruction) <= 240,
            is_implied_op(*instruction),
            *instruction is TXS || *instruction is TYA,
        ensures
            (*final(cpu), final(bus)@) == execute_spec::<B>(
                *instruction,
                add_page_boundary_cross_cycles,
                *old(cpu),
                old(bus)@,
            ),
    {
        let add = add_page_boundary_cross_cycles;
        match instruction {
            Instruction::TXS => {
                cpu.s = cpu.x;
            },
            Instruction::TYA => {
                cpu.a = cpu.y;
                CPU::set_nz(&mut cpu.p, cpu.a);
            },
            _ => {},
        }
    }

    /// Executes an unofficial combined instruction or an illegal opcode, by running
    /// the official instructions it stands for.
    #[verifier::rlimit(50)]
    fn exec_combined<B: Bus>(
        instruction: &Instruction,
        add_page_boundary_cross_cycles: bool,
        bus: &mut B,
        cpu: &mut CPU,
    )
        requires
            executable(*instruction),
            old(cpu).wait_cycles as int + 2 * depth(*instruction) <= 240,
            !is_read_op(*instruction),
            !is_modify_op(*instruction),
            !is_flow_op(*instruction),
            !is_implied_op(*instruction),
        ensures
            (*final(cpu), final(bus)@) == execute_spec::<B>(
                *instruction,
                add_page_boundary_cross_cycles,
                *old(cpu),
                old(bus)@,
            ),
        decreases depth(*instruction), 0nat,
    {
        let add = add_page_boundary_cross_cycles;
        match instruction {
            Instruction::DCP(op) => {
                CPU::execute_instruction(&Instruction::DEC(*op), false, bus, cpu);
                CPU::execute_instruction(&Instruction::CMP(*op), false, bus, cpu);
            },
            Instruction::ISB(op) => {
                CPU::execute_instruction(&Instruction::INC(*op), false, bus, cpu);
                CPU::execute_instruction(&Instruction::SBC(*op), false, bus, cpu);
            },
            Instruction::LAX(addr) => {
                CPU::execute_instruction(&Instruction::LDA(*addr), true, bus, cpu);
                CPU::execute_instruction(&Instruction::TAX, false, bus, cpu);
            },
            Instruction::RLA(op) => {
                CPU::execute_instruction(&Instruction::ROL(*op), false, bus, cpu);
                CPU::execute_instruction(&Instruction::AND(*op), false, bus, cpu);
            },
            Instruction::RRA(op) => {
                CPU::execute_instruction(&Instruction::ROR(*op), false, bus, cpu);
                CPU::execute_instruction(&Instruction::ADC(*op), false, bus, cpu);
            },
            Instruction::SLO(op) => {
                CPU::execute_instruction(&Instruction::ASL(*op), false, bus, cpu);
                CPU::execute_instruction(&Instruction::ORA(*op), false, bus, cpu);
            },
            Instruction::SRE(op) => {
                CPU::execute_instruction(&Instruction::LSR(*op), false, bus, cpu);
                CPU::execute_instruction(&Instruction::EOR(*op), false, bus, cpu);
            },
            Instruction::Illegal(instruction, op) => {
                match &**instruction {
                    Instruction::NOP => match op {
                        Some(op) => {
                            let (_value, page_boundary_crossed) = op.eval(&*cpu, bus);
                            if page_boundary_crossed && add {
                                cpu.wait_cycles = cpu.wait_cycles + 1;
                            }
                        },
                        None => {},
                    },
                    _ => {},
                }
                CPU::execute_instruction(&**instruction, false, bus, cpu);
            },
            _ => {},
        }
    }

    fn dec_byte(v: u8) -> (r: u8)
        ensures
            r == dec8(v),
    {
        if v == 0 {
            255
        } else {
            v - 1
        }
    }

    fn inc_byte(v: u8) -> (r: u8)
        ensures
            r == inc8(v),
    {
        if v == 255 {
            0
        } else {
            v + 1
        }
    }

    fn shift_left(v: u8, carry_in: bool) -> (r: u8)
        ensures
            r == ((v as int * 2) % 256 + (if carry_in {
                1int
            } else {
                0int
            })) as u8,
    {
        let c: u16 = if carry_in {
            1
        } else {
            0
        };
        ((v as u16 * 2) % 256 + c) as u8
    }

    fn shift_right(v: u8, carry_in: bool) -> (r: u8)
        ensures
            r == (v as int / 2 + (if carry_in {
                128int
            } else {
                0int
            })) as u8,
    {
        let c: u8 = if carry_in {
            128
        } else {
            0
        };
        v / 2 + c
    }

    fn high_byte(w: u16) -> (r: u8)
        ensures
            r == hi_byte(w),
    {
        (w / 256) as u8
    }

    fn low_byte(w: u16) -> (r: u8)
        ensures
            r == lo_byte(w),
    {
        (w % 256) as u8
    }

    fn inc_word(w: u16) -> (r: u16)
        ensures
            r == inc16(w),
    {
        if w == 0xffff {
            0
        } else {
            w + 1
        }
    }

    fn dec_word(w: u16) -> (r: u16)
        ensures
            r == ((w as int + 65535) % 65536) as u16,
    {
        if w == 0 {
            0xffff
        } else {
            w - 1
        }
    }

    fn set_nz(p: &mut CPUStatusRegister, v: u8)
        ensures
            *final(p) == with_nz(*old(p), v),
    {
        p.zero_flag = v == 0;
        p.negative_flag = v >= 128;
    }
}

/// What one CPU clock does: answer a pending NMI; else count down a wait cycle;
/// else answer an IRQ that interrupts are not disabled for; else fetch, decode and
/// execute the next instruction, whose base cycles minus one become wait cycles.
/// The state it leaves is the first component; the second is the instruction
/// executed with its opcode, or `None` when no instruction ran, and the third
/// is the unknown opcode that stopped the CPU, if any.
#[verifier::opaque]
pub open spec fn tick_spec<B: Bus>(cpu: CPU, bus: B::V) -> ((CPU, B::V), Option<(Instruction, u8)>, Option<u8>) {
    if cpu.nmi_set {
        (nmi_spec::<B>(cpu, bus), None, None)
    } else if cpu.wait_cycles > 0 {
        ((CPU { wait_cycles: (cpu.wait_cycles - 1) as u8, ..cpu }, bus), None, None)
    } else if cpu.irq_set && !cpu.p.interrupt_disable {
        (irq_spec::<B>(cpu, bus), None, None)
    } else {
        let c0 = CPU { p: CPUStatusRegister { unused: true, ..cpu.p }, ..cpu };
        let (di, opcode, c1, b1) = fetch_spec::<B>(c0, bus);
        match di {
            None => ((c1, b1), None, Some(opcode)),
            Some(i) => (
                execute_spec::<B>(
                    i,
                    true,
                    CPU { wait_cycles: (cycles_spec(i)->0 - 1) as u8, ..c1 },
                    b1,
                ),
                Some((i, opcode)),
                None,
            ),
        }
    }
}

impl Instruction {
    /// Reads the instruction at the program counter through the bus and moves the
    /// program counter past it.
    pub fn load_instruction<B: Bus>(bus: &mut B, cpu: &mut CPU) -> (r: Result<(Instruction, u8), CPUError>)
        ensures
            ({
                let (di, opcode, c1, b1) = fetch_spec::<B>(*old(cpu), old(bus)@);
                &&& *final(cpu) == c1
                &&& final(bus)@ == b1
                &&& match r {
                    Ok((i, op)) => di == Some(i) && op == opcode,
                    Err(e) => di is None && e == CPUError::UnknownOpcode(opcode),
                }
            }),
            r matches Ok((i, _)) ==> {
                &&& well_formed(i)
                &&& depth(i) <= 3
                &&& 2 <= cycles_spec(i)->0 <= 8
            },
            r matches Ok((i, _)) ==> final(cpu).pc as int == (old(cpu).pc as int + 1
                + operand_encoding(i).len()) % 65536,
            r matches Err(CPUError::UnknownOpcode(o)) ==> unknown_opcode(o),
    {
        proof {
            lemma_fetch_consumes_operand::<B>(*cpu, bus@);
            let (o, _) = crate::bus::read_spec::<B>(bus@, cpu.pc);
            lemma_known_opcodes(o, 0, 0);
            lemma_decode_reencodes(o, 0, 0);
        }
        let opcode = bus.read(cpu.pc);
        cpu.pc = CPU::inc_word(cpu.pc);
        match operand_size(opcode) {
            None => Err(CPUError::UnknownOpcode(opcode)),
            Some(n) => {
                let mut lo: u8 = 0;
                let mut hi: u8 = 0;
                if n == 0 {
                } else if n == 1 {
                    lo = bus.read(cpu.pc);
                    cpu.pc = CPU::inc_word(cpu.pc);
                } else {
                    lo = bus.read(cpu.pc);
                    cpu.pc = CPU::inc_word(cpu.pc);
                    hi = bus.read(cpu.pc);
                    cpu.pc = CPU::inc_word(cpu.pc);
                }
                proof {
                    lemma_decode_well_formed(opcode, lo, hi);
                }
                match decode(opcode, lo, hi) {
                    Some(instruction) => Ok((instruction, opcode)),
                    None => Err(CPUError::UnknownOpcode(opcode)),
                }
            },
        }
    }
}

impl CPU {
    /// Runs one CPU clock (see `tick_spec`). Returns the instruction executed, if
    /// one was, or the unknown opcode that the CPU could not execute.
    pub fn tick<B: Bus>(&mut self, bus: &mut B) -> (r: Result<Option<ExecutedInstruction>, CPUError>)
        ensures
            ({
                let (state, executed, unknown) = tick_spec::<B>(*old(self), old(bus)@);
                &&& (*final(self), final(bus)@) == state
                &&& match r {
                    Ok(None) => executed is None && unknown is None,
                    Ok(Some(e)) => {
                        &&& executed == Some((e.instruction, e.opcode))
                        &&& unknown is None
                        &&& e.disassembled_instruction.instruction == e.instruction
                        &&& ({
                            let (c1, b1) = fetched::<B>(*old(self), old(bus)@);
                            e.disassembled_instruction.operand == disassembled_operand::<B>(
                                e.instruction,
                                c1,
                                b1,
                            )
                        })
                    },
                    Err(CPUError::UnknownOpcode(op)) => unknown == Some(op),
                }
            }),
    {
        reveal(tick_spec);
        if self.nmi_set {
            let pc = self.pc;
            CPU::push_stack(CPU::high_byte(pc), bus, self);
            CPU::push_stack(CPU::low_byte(pc), bus, self);
            self.p.break_flag = false;
            self.p.interrupt_disable = true;
            self.p.unused = true;
            let status = self.p.to_byte();
            CPU::push_stack(status, bus, self);
            let low = bus.read(0xfffa);
            let high = bus.read(0xfffb);
            let nmi_vector = make_word(low, high);
            CPU::set_pc(&Operand::Absolute(nmi_vector), bus, self);
            self.nmi_set = false;
            self.wait_cycles = 6;
            return Ok(None);
        }
        if self.wait_cycles > 0 {
            self.wait_cycles = self.wait_cycles - 1;
            return Ok(None);
        }
        if self.irq_set && !self.p.interrupt_disable {
            let pc = self.pc;
            CPU::push_stack(CPU::high_byte(pc), bus, self);
            CPU::push_stack(CPU::low_byte(pc), bus, self);
            let status = self.p.to_byte();
            CPU::push_stack(status, bus, self);
            self.p.break_flag = false;
            self.p.interrupt_disable = true;
            self.p.unused = true;
            let low = bus.read(0xfffe);
            let high = bus.read(0xffff);
            let irq_vector = make_word(low, high);
            CPU::set_pc(&Operand::Absolute(irq_vector), bus, self);
            self.wait_cycles = 6;
            return Ok(None);
        }
        self.p.unused = true;
        let (instruction, opcode) = match Instruction::load_instruction(bus, self) {
            Ok(loaded) => loaded,
            Err(e) => {
                return Err(e);
            },
        };
        let disassembled_instruction = instruction.disassemble(&*bus, self);
        self.wait_cycles = instruction.base_cycles() - 1;
        CPU::execute_instruction(&instruction, true, bus, self);
        Ok(Some(ExecutedInstruction { instruction, opcode, disassembled_instruction }))
    }
}

} // verus!
