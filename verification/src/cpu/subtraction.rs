use vstd::prelude::*;

use super::cpu::{adc_spec, execute_spec, lemma_execute_read, read_group_spec, CPU};
use super::instructions::Instruction;
use super::operand::Operand;
use crate::bus::Bus;

verus! {

/// Both instructions read the immediate byte and add with carry.
proof fn lemma_sbc_adc_groups<B: Bus>(v: u8, add_cycles: bool, cpu: CPU, bus: B::V)
    ensures
        read_group_spec::<B>(Instruction::SBC(Operand::Immediate(v)), add_cycles, cpu, bus) == (
        adc_spec(cpu, v ^ 0xffu8), bus),
        read_group_spec::<B>(Instruction::ADC(Operand::Immediate(v ^ 0xffu8)), add_cycles, cpu, bus) == (
        adc_spec(cpu, v ^ 0xffu8), bus),
{
}

/// Adding the complement of `v` with carry subtracts `v` with borrow.
proof fn lemma_adc_complement(cpu: CPU, v: u8)
    ensures
        ({
            let r = adc_spec(cpu, v ^ 0xffu8);
            let diff = cpu.a as int - v as int - (if cpu.p.carry_flag {
                0int
            } else {
                1int
            });
            &&& r.a as int == diff % 256
            &&& r.p.carry_flag == (diff >= 0)
            &&& r.wait_cycles == cpu.wait_cycles
        }),
{
    assert(v ^ 0xffu8 == 255 - v) by (bit_vector);
}

/// Subtracting `v` with borrow is adding its complement with carry, and
/// subtracts: the accumulator becomes `A - v - borrow` modulo 256 (the borrow
/// being the clear carry), and the carry is set exactly when no borrow was
/// needed.
pub proof fn lemma_sbc_subtracts<B: Bus>(v: u8, add_cycles: bool, cpu: CPU, bus: B::V)
    ensures
        ({
            let sbc = execute_spec::<B>(Instruction::SBC(Operand::Immediate(v)), add_cycles, cpu, bus);
            let adc = execute_spec::<B>(Instruction::ADC(Operand::Immediate(v ^ 0xffu8)), add_cycles, cpu, bus);
            let diff = cpu.a as int - v as int - (if cpu.p.carry_flag {
                0int
            } else {
                1int
            });
            &&& sbc == adc
            &&& sbc.0.a as int == diff % 256
            &&& sbc.0.p.carry_flag == (diff >= 0)
            &&& sbc.0.wait_cycles == cpu.wait_cycles
        }),
{
    let sbc_i = Instruction::SBC(Operand::Immediate(v));
    let adc_i = Instruction::ADC(Operand::Immediate(v ^ 0xffu8));
    lemma_execute_read::<B>(sbc_i, add_cycles, cpu, bus);
    lemma_execute_read::<B>(adc_i, add_cycles, cpu, bus);
    lemma_sbc_adc_groups::<B>(v, add_cycles, cpu, bus);
    lemma_adc_complement(cpu, v);
}

} // verus!
