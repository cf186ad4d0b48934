use vstd::prelude::*;

use crate::bus::read_spec;
use crate::cpu::cpu::{
    dec8, execute_spec, flow_group_spec, hi_byte, implied_group_spec, inc8, lemma_execute_flow,
    lemma_execute_implied, lo_byte, pull_spec, push_spec, with_nz, CPU,
};
use crate::cpu::cpu_bus::{
    lemma_cartridge_ignores_low, lemma_stack_push_pull, lemma_work_ram_write_read, CPUBus, CPUBusView,
};
use crate::cpu::instructions::Instruction;
use crate::cpu::operand::{word_spec, Operand};

verus! {

/// Two bytes pushed on the stack read back, the later one first, without side
/// effects.
#[verifier::spinoff_prover]
#[verifier::rlimit(50)]
proof fn lemma_two_pushes_read_back(bus: CPUBusView, s: u8, hi: u8, lo: u8)
    requires
        bus.work_ram.len() == 2048,
    ensures
        ({
            let a1 = (s as int + 256) as u16;
            let a2 = (dec8(s) as int + 256) as u16;
            let b2 = bus.write(a1, hi).write(a2, lo);
            &&& read_spec::<CPUBus>(b2, a2) == (lo, b2)
            &&& read_spec::<CPUBus>(b2, a1) == (hi, b2)
        }),
{
    let a1 = (s as int + 256) as u16;
    let a2 = (dec8(s) as int + 256) as u16;
    lemma_cartridge_ignores_low(bus.cartridge, a1);
    lemma_cartridge_ignores_low(bus.cartridge, a2);
    let b1 = bus.write(a1, hi);
    lemma_work_ram_write_read(b1, a2, a2, lo);
    assert(a1 % 0x800 != a2 % 0x800);
}

/// A call through an absolute address pushes the address of its last byte,
/// high byte first, and jumps.
#[verifier::spinoff_prover]
#[verifier::rlimit(50)]
proof fn lemma_jsr_flow(cpu: CPU, bus: CPUBusView, target: u16, add_cycles: bool)
    ensures
        ({
            let rp = ((cpu.pc as int + 65535) % 65536) as u16;
            let a1 = (cpu.s as int + 256) as u16;
            let a2 = (dec8(cpu.s) as int + 256) as u16;
            flow_group_spec::<CPUBus>(Instruction::JSR(Operand::Absolute(target)), add_cycles, cpu, bus) == (
            CPU { pc: target, s: dec8(dec8(cpu.s)), ..cpu },
            bus.write(a1, hi_byte(rp)).write(a2, lo_byte(rp)))
        }),
{
    reveal(flow_group_spec);
}

/// A return pulls the low byte, then the high byte, and jumps past the address
/// they make.
#[verifier::spinoff_prover]
#[verifier::rlimit(50)]
proof fn lemma_rts_flow(cpu: CPU, bus: CPUBusView, add_cycles: bool)
    ensures
        ({
            let s1 = inc8(cpu.s);
            let s2 = inc8(s1);
            let (lo, b1) = read_spec::<CPUBus>(bus, (s1 as int + 256) as u16);
            let (hi, b2) = read_spec::<CPUBus>(b1, (s2 as int + 256) as u16);
            flow_group_spec::<CPUBus>(Instruction::RTS, add_cycles, cpu, bus) == (
            CPU { pc: ((word_spec(lo, hi) as int + 1) % 65536) as u16, s: s2, ..cpu },
            b2)
        }),
{
    reveal(flow_group_spec);
}

/// The return address a call pushes, read back as a word and stepped past,
/// is the address after the call; the stack pointer steps back where it was.
proof fn lemma_return_arith(pc: u16, s: u8)
    ensures
        ({
            let rp = ((pc as int + 65535) % 65536) as u16;
            &&& ((word_spec(lo_byte(rp), hi_byte(rp)) as int + 1) % 65536) as u16 == pc
            &&& inc8(dec8(dec8(s))) == dec8(s)
            &&& inc8(dec8(s)) == s
        }),
{
}

/// The call-and-return round trip, over the flow-control semantics.
#[verifier::spinoff_prover]
#[verifier::rlimit(50)]
proof fn lemma_jsr_rts_flow(cpu: CPU, bus: CPUBusView, target: u16, add_cycles: bool)
    requires
        bus.work_ram.len() == 2048,
    ensures
        ({
            let (c1, b1) = flow_group_spec::<CPUBus>(Instruction::JSR(Operand::Absolute(target)), add_cycles, cpu, bus);
            let (c2, b2) = flow_group_spec::<CPUBus>(Instruction::RTS, add_cycles, c1, b1);
            &&& c1.pc == target
            &&& c2.pc == cpu.pc
            &&& c2.s == cpu.s
        }),
{
    let rp = ((cpu.pc as int + 65535) % 65536) as u16;
    let hi = hi_byte(rp);
    let lo = lo_byte(rp);
    let s1 = dec8(cpu.s);
    let a1 = (cpu.s as int + 256) as u16;
    let a2 = (s1 as int + 256) as u16;
    let c1 = CPU { pc: target, s: dec8(s1), ..cpu };
    let b1 = bus.write(a1, hi).write(a2, lo);
    lemma_return_arith(cpu.pc, cpu.s);
    lemma_jsr_flow(cpu, bus, target, add_cycles);
    lemma_two_pushes_read_back(bus, cpu.s, hi, lo);
    lemma_rts_flow(c1, b1, add_cycles);
}

/// A subroutine call followed by a return comes back to the instruction after
/// the call, with the stack pointer where it was.
#[verifier::spinoff_prover]
#[verifier::rlimit(50)]
pub proof fn lemma_jsr_rts_returns(cpu: CPU, bus: CPUBusView, target: u16, add_cycles: bool)
    requires
        bus.work_ram.len() == 2048,
    ensures
        ({
            let (c1, b1) = execute_spec::<CPUBus>(Instruction::JSR(Operand::Absolute(target)), add_cycles, cpu, bus);
            let (c2, b2) = execute_spec::<CPUBus>(Instruction::RTS, add_cycles, c1, b1);
            &&& c1.pc == target
            &&& c2.pc == cpu.pc
            &&& c2.s == cpu.s
        }),
{
    let jsr = Instruction::JSR(Operand::Absolute(target));
    lemma_jsr_rts_flow(cpu, bus, target, add_cycles);
    lemma_execute_flow::<CPUBus>(jsr, add_cycles, cpu, bus);
    let (c1, b1) = flow_group_spec::<CPUBus>(jsr, add_cycles, cpu, bus);
    lemma_execute_flow::<CPUBus>(Instruction::RTS, add_cycles, c1, b1);
}


/// Pushing the accumulator and pulling it back leaves the accumulator and the
/// stack pointer as they were, with the zero and negative flags set by its
/// value.
#[verifier::spinoff_prover]
#[verifier::rlimit(50)]
pub proof fn lemma_pha_pla_restores(cpu: CPU, bus: CPUBusView, add_cycles: bool)
    requires
        bus.work_ram.len() == 2048,
    ensures
        ({
            let (c1, b1) = execute_spec::<CPUBus>(Instruction::PHA, add_cycles, cpu, bus);
            let (c2, b2) = execute_spec::<CPUBus>(Instruction::PLA, add_cycles, c1, b1);
            &&& c2 == (CPU { p: with_nz(cpu.p, cpu.a), ..cpu })
            &&& b2 == b1
        }),
{
    lemma_execute_implied::<CPUBus>(Instruction::PHA, add_cycles, cpu, bus);
    assert(implied_group_spec::<CPUBus>(Instruction::PHA, add_cycles, cpu, bus) == push_spec::<CPUBus>(cpu.a, cpu, bus));
    let (c1, b1) = push_spec::<CPUBus>(cpu.a, cpu, bus);
    lemma_stack_push_pull(cpu.a, cpu, bus);
    lemma_execute_implied::<CPUBus>(Instruction::PLA, add_cycles, c1, b1);
    let (v, c1p, b1p) = pull_spec::<CPUBus>(c1, b1);
    assert(implied_group_spec::<CPUBus>(Instruction::PLA, add_cycles, c1, b1) == (CPU { a: v, p: with_nz(c1p.p, v), ..c1p }, b1p));
}

} // verus!
