use nesemu::cpu::disassembly::{DisassembledInstruction, DisassembledOperand, DisassemblyEvalResult};
use nesemu::cpu::instructions::Instruction;
use nesemu::cpu::operand::Operand;

fn text(op: DisassembledOperand) -> String {
    op.to_string()
}

#[test]
fn operands_in_assembler_syntax() {
    assert_eq!(text(DisassembledOperand::Accumulator), "A");
    assert_eq!(text(DisassembledOperand::Immediate { value: 0x0f }), "#$0F");
    assert_eq!(text(DisassembledOperand::Absolute { addr: 0x1234, result: None }), "$1234");
    assert_eq!(text(DisassembledOperand::Absolute { addr: 0x0300, result: Some(0xab) }), "$0300 = AB");
    assert_eq!(
        text(DisassembledOperand::AbsoluteX {
            base_addr: 0x0300,
            result: Some(DisassemblyEvalResult { addr: 0x0305, value: 0x01 })
        }),
        "$0300,X @ 0305 = 01"
    );
    assert_eq!(
        text(DisassembledOperand::ZeroPageY { zp_addr: 0x10, result: Some(DisassemblyEvalResult { addr: 0x12, value: 0xff }) }),
        "$10,Y @ 12 = FF"
    );
    assert_eq!(text(DisassembledOperand::Indirect { addr: 0x02ff, result_addr: Some(0x0400) }), "($02FF) = 0400");
    assert_eq!(
        text(DisassembledOperand::IndirectX {
            zp_addr: 0xf0,
            result: Some((0x20, DisassemblyEvalResult { addr: 0x0400, value: 0x5d }))
        }),
        "($F0,X) @ 10 = 0400 = 5D"
    );
    assert_eq!(
        text(DisassembledOperand::IndirectY {
            zp_addr: 0x33,
            result: Some((0x0400, DisassemblyEvalResult { addr: 0x0402, value: 0x07 }))
        }),
        "($33),Y = 0400 @ 0402 = 07"
    );
}

#[test]
fn branch_targets_are_absolute() {
    assert_eq!(text(DisassembledOperand::Relative { offset: -2, pc: 0xc010 }), "$C00E");
    assert_eq!(text(DisassembledOperand::Relative { offset: 0x10, pc: 0xc010 }), "$C020");
    // before the start of memory the sum shows as a 32-bit pattern
    assert_eq!(text(DisassembledOperand::Relative { offset: -2, pc: 0x0001 }), "$FFFFFFFF");
    // past the end it shows five digits
    assert_eq!(text(DisassembledOperand::Relative { offset: 0x7f, pc: 0xfff0 }), "$1006F");
}

#[test]
fn instruction_with_mnemonic_and_operand() {
    let d = DisassembledInstruction {
        instruction: Instruction::LDA(Operand::Immediate(1)),
        operand: Some(DisassembledOperand::Immediate { value: 1 }),
    };
    assert_eq!(d.to_string(), "LDA #$01");
    let n = DisassembledInstruction { instruction: Instruction::NOP, operand: None };
    assert_eq!(n.to_string(), "NOP");
    // an unofficial opcode shows the instruction it wraps
    let i = DisassembledInstruction {
        instruction: Instruction::Illegal(Box::new(Instruction::NOP), Some(Operand::ZeroPage(4))),
        operand: Some(DisassembledOperand::ZeroPage { zp_addr: 4, result: Some(0) }),
    };
    assert_eq!(i.to_string(), "NOP $04 = 00");
}

#[test]
fn instructions_print_in_lower_case_assembler_syntax() {
    assert_eq!(Operand::Immediate(0x0a).to_string(), "#$0a");
    assert_eq!(Operand::AbsoluteX(0xc5f5).to_string(), "$c5f5,x");
    assert_eq!(Operand::IndirectY(0x4d).to_string(), "($4d),y");
    assert_eq!(Operand::Accumulator.to_string(), "");
    assert_eq!(Instruction::LDA(Operand::Absolute(0xc5f5)).to_string(), "lda $c5f5");
    assert_eq!(Instruction::ASL(Operand::Accumulator).to_string(), "asl ");
    assert_eq!(Instruction::BNE(Operand::Relative(-3)).to_string(), "bne -3");
    assert_eq!(Instruction::JMP(Operand::Indirect(0x02ff)).to_string(), "jmp ($02ff)");
    assert_eq!(Instruction::INX.to_string(), "inx");
    assert_eq!(
        Instruction::Illegal(Box::new(Instruction::NOP), Some(Operand::ZeroPage(4))).to_string(),
        "nop $04"
    );
}
