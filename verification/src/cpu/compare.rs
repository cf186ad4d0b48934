use vstd::prelude::*;

use super::cpu::{execute_spec, lemma_execute_read, read_group_spec, CPU};
use super::instructions::Instruction;
use super::operand::{eval_spec, Operand};
use crate::bus::Bus;

verus! {

/// Whether `after` holds the flags of comparing the register value `r` with
/// `v`, as unsigned bytes: carry when `r >= v` (no borrow), zero when they
/// are equal, negative when bit 7 of `r - v` is set; every other flag kept
/// from `before`.
pub open spec fn compared(before: CPU, after: CPU, r: u8, v: u8) -> bool {
    &&& after.p.carry_flag == (r >= v)
    &&& after.p.zero_flag == (r == v)
    &&& after.p.negative_flag == ((r as int - v as int + 256) % 256 >= 128)
    &&& after.p.overflow_flag == before.p.overflow_flag
    &&& after.p.interrupt_disable == before.p.interrupt_disable
    &&& after.p.decimal_flag == before.p.decimal_flag
    &&& after.p.break_flag == before.p.break_flag
    &&& after.a == before.a
    &&& after.x == before.x
    &&& after.y == before.y
    &&& after.s == before.s
    &&& after.pc == before.pc
}

proof fn lemma_compare_groups<B: Bus>(op: Operand, add_cycles: bool, cpu: CPU, bus: B::V)
    ensures
        ({
            let (v, _, _) = eval_spec::<B>(op, cpu, bus);
            &&& compared(cpu, read_group_spec::<B>(Instruction::CMP(op), add_cycles, cpu, bus).0, cpu.a, v)
            &&& compared(cpu, read_group_spec::<B>(Instruction::CPX(op), add_cycles, cpu, bus).0, cpu.x, v)
            &&& compared(cpu, read_group_spec::<B>(Instruction::CPY(op), add_cycles, cpu, bus).0, cpu.y, v)
        }),
{
}

/// CMP, CPX and CPY compare A, X and Y with the operand's value as unsigned
/// bytes: the carry is set exactly when the register is at least the value
/// (so comparing equal values sets both carry and zero), the zero flag exactly
/// when they are equal, and the negative flag from bit 7 of the difference; the
/// registers and the other flags stay.
pub proof fn lemma_compare_sets_flags<B: Bus>(op: Operand, add_cycles: bool, cpu: CPU, bus: B::V)
    ensures
        ({
            let (v, _, _) = eval_spec::<B>(op, cpu, bus);
            &&& compared(cpu, execute_spec::<B>(Instruction::CMP(op), add_cycles, cpu, bus).0, cpu.a, v)
            &&& compared(cpu, execute_spec::<B>(Instruction::CPX(op), add_cycles, cpu, bus).0, cpu.x, v)
            &&& compared(cpu, execute_spec::<B>(Instruction::CPY(op), add_cycles, cpu, bus).0, cpu.y, v)
        }),
{
    lemma_execute_read::<B>(Instruction::CMP(op), add_cycles, cpu, bus);
    lemma_execute_read::<B>(Instruction::CPX(op), add_cycles, cpu, bus);
    lemma_execute_read::<B>(Instruction::CPY(op), add_cycles, cpu, bus);
    lemma_compare_groups::<B>(op, add_cycles, cpu, bus);
}

} // verus!
