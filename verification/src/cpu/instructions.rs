use vstd::prelude::*;

use super::operand::{word_spec, make_word, Operand};

verus! {

/// A 6502 instruction with its operand. `Illegal` wraps an unofficial opcode:
/// the instruction it behaves as, and the operand it was encoded with.
#[derive(Debug)]
pub enum Instruction {
    ADC(Operand),
    AND(Operand),
    ASL(Operand),
    BCC(Operand),
    BCS(Operand),
    BEQ(Operand),
    BIT(Operand),
    BMI(Operand),
    BNE(Operand),
    BPL(Operand),
    BRK,
    BVC(Operand),
    BVS(Operand),
    CLC,
    CLD,
    CLI,
    CLV,
    CMP(Operand),
    CPX(Operand),
    CPY(Operand),
    DEC(Operand),
    DEX,
    DEY,
    EOR(Operand),
    INC(Operand),
    INX,
    INY,
    JMP(Operand),
    JSR(Operand),
    LDA(Operand),
    LDX(Operand),
    LDY(Operand),
    LSR(Operand),
    NOP,
    ORA(Operand),
    PHA,
    PHP,
    PLA,
    PLP,
    ROL(Operand),
    ROR(Operand),
    RTI,
    RTS,
    SBC(Operand),
    SEC,
    SED,
    SEI,
    STA(Operand),
    STX(Operand),
    STY(Operand),
    TAX,
    TAY,
    TSX,
    TXA,
    TXS,
    TYA,
    Illegal(Box<Instruction>, Option<Operand>),
    // Unofficial instructions
    DCP(Operand),
    ISB(Operand),
    LAX(Operand),
    RLA(Operand),
    RRA(Operand),
    SAX(Operand),
    SLO(Operand),
    SRE(Operand),
}

/// The base cycle count of an instruction, or `None` where the operand's
/// addressing mode is not one the instruction has.
pub open spec fn cycles_spec(i: Instruction) -> Option<u8>
    decreases i,
{
    match i {
      Instruction::ADC(op) => match op {
        Operand::Immediate(_) => Some(2u8),
        Operand::Absolute(_) => Some(4u8),
        Operand::AbsoluteX(_) => Some(4u8),
        Operand::AbsoluteY(_) => Some(4u8),
        Operand::ZeroPage(_) => Some(3u8),
        Operand::ZeroPageX(_) => Some(4u8),
        Operand::IndirectX(_) => Some(6u8),
        Operand::IndirectY(_) => Some(5u8),
        _ => None,
      },
      Instruction::AND(op) => match op {
        Operand::Immediate(_) => Some(2u8),
        Operand::Absolute(_) => Some(4u8),
        Operand::AbsoluteX(_) => Some(4u8),
        Operand::AbsoluteY(_) => Some(4u8),
        Operand::ZeroPage(_) => Some(3u8),
        Operand::ZeroPageX(_) => Some(4u8),
        Operand::IndirectX(_) => Some(6u8),
        Operand::IndirectY(_) => Some(5u8),
        _ => None,
      },
      Instruction::ASL(op) => match op {
        Operand::Accumulator => Some(2u8),
        Operand::Absolute(_) => Some(6u8),
        Operand::AbsoluteX(_) => Some(7u8),
        Operand::ZeroPage(_) => Some(5u8),
        Operand::ZeroPageX(_) => Some(6u8),
        _ => None,
      },
      Instruction::BCC(op) => match op {
        Operand::Relative(_) => Some(2u8),
        _ => None,
      },
      Instruction::BCS(op) => match op {
        Operand::Relative(_) => Some(2u8),
        _ => None,
      },
      Instruction::BEQ(op) => match op {
        Operand::Relative(_) => Some(2u8),
        _ => None,
      },
      Instruction::BIT(op) => match op {
        Operand::Absolute(_) => Some(4u8),
        Operand::ZeroPage(_) => Some(3u8),
        _ => None,
      },
      Instruction::BMI(op) => match op {
        Operand::Relative(_) => Some(2u8),
        _ => None,
      },
      Instruction::BNE(op) => match op {
        Operand::Relative(_) => Some(2u8),
        _ => None,
      },
      Instruction::BPL(op) => match op {
        Operand::Relative(_) => Some(2u8),
        _ => None,
      },
      Instruction::BRK => Some(7u8),
      Instruction::BVC(op) => match op {
        Operand::Relative(_) => Some(2u8),
        _ => None,
      },
      Instruction::BVS(op) => match op {
        Operand::Relative(_) => Some(2u8),
        _ => None,
      },
      Instruction::CLC => Some(2u8),
      Instruction::CLD => Some(2u8),
      Instruction::CLI => Some(2u8),
      Instruction::CLV => Some(2u8),
      Instruction::CMP(op) => match op {
        Operand::Immediate(_) => Some(2u8),
        Operand::Absolute(_) => Some(4u8),
        Operand::AbsoluteX(_) => Some(4u8),
        Operand::AbsoluteY(_) => Some(4u8),
        Operand::ZeroPage(_) => Some(3u8),
        Operand::ZeroPageX(_) => Some(4u8),
        Operand::IndirectX(_) => Some(6u8),
        Operand::IndirectY(_) => Some(5u8),
        _ => None,
      },
      Instruction::CPX(op) => match op {
        Operand::Immediate(_) => Some(2u8),
        Operand::Absolute(_) => Some(4u8),
        Operand::ZeroPage(_) => Some(3u8),
        _ => None,
      },
      Instruction::CPY(op) => match op {
        Operand::Immediate(_) => Some(2u8),
        Operand::Absolute(_) => Some(4u8),
        Operand::ZeroPage(_) => Some(3u8),
        _ => None,
      },
      Instruction::DEC(op) => match op {
        Operand::Absolute(_) => Some(6u8),
        Operand::AbsoluteX(_) => Some(7u8),
        Operand::ZeroPage(_) => Some(5u8),
        Operand::ZeroPageX(_) => Some(6u8),
        _ => None,
      },
      Instruction::DEX => Some(2u8),
      Instruction::DEY => Some(2u8),
      Instruction::EOR(op) => match op {
        Operand::Immediate(_) => Some(2u8),
        Operand::Absolute(_) => Some(4u8),
        Operand::AbsoluteX(_) => Some(4u8),
        Operand::AbsoluteY(_) => Some(4u8),
        Operand::ZeroPage(_) => Some(3u8),
        Operand::ZeroPageX(_) => Some(4u8),
        Operand::IndirectX(_) => Some(6u8),
        Operand::IndirectY(_) => Some(5u8),
        _ => None,
      },
      Instruction::INC(op) => match op {
        Operand::Absolute(_) => Some(6u8),
        Operand::AbsoluteX(_) => Some(7u8),
        Operand::ZeroPage(_) => Some(5u8),
        Operand::ZeroPageX(_) => Some(6u8),
        _ => None,
      },
      Instruction::INX => Some(2u8),
      Instruction::INY => Some(2u8),
      Instruction::JMP(op) => match op {
        Operand::Absolute(_) => Some(3u8),
        Operand::Indirect(_) => Some(5u8),
        _ => None,
      },
      Instruction::JSR(op) => match op {
        Operand::Absolute(_) => Some(6u8),
        _ => None,
      },
      Instruction::LDA(op) => match op {
        Operand::Immediate(_) => Some(2u8),
        Operand::Absolute(_) => Some(4u8),
        Operand::AbsoluteX(_) => Some(4u8),
        Operand::AbsoluteY(_) => Some(4u8),
        Operand::ZeroPage(_) => Some(3u8),
        Operand::ZeroPageX(_) => Some(4u8),
        Operand::IndirectX(_) => Some(6u8),
        Operand::IndirectY(_) => Some(5u8),
        _ => None,
      },
      Instruction::LDX(op) => match op {
        Operand::Immediate(_) => Some(2u8),
        Operand::Absolute(_) => Some(4u8),
        Operand::AbsoluteY(_) => Some(4u8),
        Operand::ZeroPage(_) => Some(3u8),
        Operand::ZeroPageY(_) => Some(4u8),
        _ => None,
      },
      Instruction::LDY(op) => match op {
        Operand::Immediate(_) => Some(2u8),
        Operand::Absolute(_) => Some(4u8),
        Operand::AbsoluteX(_) => Some(4u8),
        Operand::ZeroPage(_) => Some(3u8),
        Operand::ZeroPageX(_) => Some(4u8),
        _ => None,
      },
      Instruction::LSR(op) => match op {
        Operand::Accumulator => Some(2u8),
        Operand::ZeroPage(_) => Some(5u8),
        Operand::ZeroPageX(_) => Some(6u8),
        Operand::Absolute(_) => Some(6u8),
        Operand::AbsoluteX(_) => Some(7u8),
        _ => None,
      },
      Instruction::NOP => Some(2u8),
      Instruction::ORA(op) => match op {
        Operand::Immediate(_) => Some(2u8),
        Operand::Absolute(_) => Some(4u8),
        Operand::AbsoluteX(_) => Some(4u8),
        Operand::AbsoluteY(_) => Some(4u8),
        Operand::ZeroPage(_) => Some(3u8),
        Operand::ZeroPageX(_) => Some(4u8),
        Operand::IndirectX(_) => Some(6u8),
        Operand::IndirectY(_) => Some(5u8),
        _ => None,
      },
      Instruction::PHA => Some(3u8),
      Instruction::PHP => Some(3u8),
      Instruction::PLA => Some(4u8),
      Instruction::PLP => Some(4u8),
      Instruction::ROL(op) => match op {
        Operand::Accumulator => Some(2u8),
        Operand::Absolute(_) => Some(6u8),
        Operand::AbsoluteX(_) => Some(7u8),
        Operand::ZeroPage(_) => Some(5u8),
        Operand::ZeroPageX(_) => Some(6u8),
        _ => None,
      },
      Instruction::ROR(op) => match op {
        Operand::Accumulator => Some(2u8),
        Operand::Absolute(_) => Some(6u8),
        Operand::AbsoluteX(_) => Some(7u8),
        Operand::ZeroPage(_) => Some(5u8),
        Operand::ZeroPageX(_) => Some(6u8),
        _ => None,
      },
      Instruction::RTI => Some(6u8),
      Instruction::RTS => Some(6u8),
      Instruction::SBC(op) => match op {
        Operand::Immediate(_) => Some(2u8),
        Operand::Absolute(_) => Some(4u8),
        Operand::AbsoluteX(_) => Some(4u8),
        Operand::AbsoluteY(_) => Some(4u8),
        Operand::ZeroPage(_) => Some(3u8),
        Operand::ZeroPageX(_) => Some(4u8),
        Operand::IndirectX(_) => Some(6u8),
        Operand::IndirectY(_) => Some(5u8),
        _ => None,
      },
      Instruction::SEC => Some(2u8),
      Instruction::SED => Some(2u8),
      Instruction::SEI => Some(2u8),
      Instruction::STA(op) => match op {
        Operand::Absolute(_) => Some(4u8),
        Operand::AbsoluteX(_) => Some(5u8),
        Operand::AbsoluteY(_) => Some(5u8),
        Operand::ZeroPage(_) => Some(3u8),
        Operand::ZeroPageX(_) => Some(4u8),
        Operand::IndirectX(_) => Some(6u8),
        Operand::IndirectY(_) => Some(6u8),
        _ => None,
      },
      Instruction::STX(op) => match op {
        Operand::ZeroPage(_) => Some(3u8),
        Operand::ZeroPageY(_) => Some(4u8),
        Operand::Absolute(_) => Some(4u8),
        _ => None,
      },
      Instruction::STY(op) => match op {
        Operand::ZeroPage(_) => Some(3u8),
        Operand::ZeroPageX(_) => Some(4u8),
        Operand::Absolute(_) => Some(4u8),
        _ => None,
      },
      Instruction::TAX => Some(2u8),
      Instruction::TAY => Some(2u8),
      Instruction::TSX => Some(2u8),
      Instruction::TXA => Some(2u8),
      Instruction::TXS => Some(2u8),
      Instruction::TYA => Some(2u8),

      Instruction::Illegal(instruction, op) => match *instruction {
        Instruction::NOP => match op {
          Some(Operand::Absolute(_)) => Some(4u8),
          Some(Operand::AbsoluteX(_)) => Some(4u8),
          Some(Operand::ZeroPage(_)) => Some(3u8),
          Some(Operand::ZeroPageX(_)) => Some(4u8),
          _ => cycles_spec(*instruction),
        },
        _ => cycles_spec(*instruction),
      },

      // Unofficial instructions
      Instruction::DCP(op) => match op {
        Operand::IndirectX(_) => Some(8u8),
        Operand::ZeroPage(_) => Some(5u8),
        Operand::Absolute(_) => Some(6u8),
        Operand::IndirectY(_) => Some(8u8),
        Operand::ZeroPageX(_) => Some(6u8),
        Operand::AbsoluteY(_) => Some(7u8),
        Operand::AbsoluteX(_) => Some(7u8),
        _ => None,
      },
      Instruction::ISB(op) => match op {
        Operand::IndirectX(_) => Some(8u8),
        Operand::ZeroPage(_) => Some(5u8),
        Operand::Absolute(_) => Some(6u8),
        Operand::IndirectY(_) => Some(8u8),
        Operand::ZeroPageX(_) => Some(6u8),
        Operand::AbsoluteY(_) => Some(7u8),
        Operand::AbsoluteX(_) => Some(7u8),
        _ => None,
      },
      Instruction::LAX(op) => match op {
        Operand::Absolute(_) => Some(4u8),
        Operand::AbsoluteY(_) => Some(4u8),
        Operand::ZeroPage(_) => Some(3u8),
        Operand::ZeroPageY(_) => Some(4u8),
        Operand::IndirectX(_) => Some(6u8),
        Operand::IndirectY(_) => Some(5u8),
        _ => None,
      },
      Instruction::RLA(op) => match op {
        Operand::IndirectX(_) => Some(8u8),
        Operand::ZeroPage(_) => Some(5u8),
        Operand::Absolute(_) => Some(6u8),
        Operand::IndirectY(_) => Some(8u8),
        Operand::ZeroPageX(_) => Some(6u8),
        Operand::AbsoluteY(_) => Some(7u8),
        Operand::AbsoluteX(_) => Some(7u8),
        _ => None,
      },
      Instruction::RRA(op) => match op {
        Operand::IndirectX(_) => Some(8u8),
        Operand::ZeroPage(_) => Some(5u8),
        Operand::Absolute(_) => Some(6u8),
        Operand::IndirectY(_) => Some(8u8),
        Operand::ZeroPageX(_) => Some(6u8),
        Operand::AbsoluteY(_) => Some(7u8),
        Operand::AbsoluteX(_) => Some(7u8),
        _ => None,
      },
      Instruction::SAX(op) => match op {
        Operand::IndirectX(_) => Some(6u8),
        Operand::ZeroPage(_) => Some(3u8),
        Operand::Absolute(_) => Some(4u8),
        Operand::ZeroPageY(_) => Some(4u8),
        _ => None,
      },
      Instruction::SLO(op) => match op {
        Operand::IndirectX(_) => Some(8u8),
        Operand::ZeroPage(_) => Some(5u8),
        Operand::Absolute(_) => Some(6u8),
        Operand::IndirectY(_) => Some(8u8),
        Operand::ZeroPageX(_) => Some(6u8),
        Operand::AbsoluteY(_) => Some(7u8),
        Operand::AbsoluteX(_) => Some(7u8),
        _ => None,
      },
      Instruction::SRE(op) => match op {
        Operand::IndirectX(_) => Some(8u8),
        Operand::ZeroPage(_) => Some(5u8),
        Operand::Absolute(_) => Some(6u8),
        Operand::IndirectY(_) => Some(8u8),
        Operand::ZeroPageX(_) => Some(6u8),
        Operand::AbsoluteY(_) => Some(7u8),
        Operand::AbsoluteX(_) => Some(7u8),
        _ => None,
      },
    }
}

/// The operand an instruction carries.
pub open spec fn operand_spec(i: Instruction) -> Option<Operand> {
    match i {
        Instruction::ADC(op) => Some(op),
        Instruction::AND(op) => Some(op),
        Instruction::ASL(op) => Some(op),
        Instruction::BCC(op) => Some(op),
        Instruction::BCS(op) => Some(op),
        Instruction::BEQ(op) => Some(op),
        Instruction::BIT(op) => Some(op),
        Instruction::BMI(op) => Some(op),
        Instruction::BNE(op) => Some(op),
        Instruction::BPL(op) => Some(op),
        Instruction::BVC(op) => Some(op),
        Instruction::BVS(op) => Some(op),
        Instruction::CMP(op) => Some(op),
        Instruction::CPX(op) => Some(op),
        Instruction::CPY(op) => Some(op),
        Instruction::DEC(op) => Some(op),
        Instruction::EOR(op) => Some(op),
        Instruction::INC(op) => Some(op),
        Instruction::JMP(op) => Some(op),
        Instruction::JSR(op) => Some(op),
        Instruction::LDA(op) => Some(op),
        Instruction::LDX(op) => Some(op),
        Instruction::LDY(op) => Some(op),
        Instruction::LSR(op) => Some(op),
        Instruction::ORA(op) => Some(op),
        Instruction::ROL(op) => Some(op),
        Instruction::ROR(op) => Some(op),
        Instruction::SBC(op) => Some(op),
        Instruction::STA(op) => Some(op),
        Instruction::STX(op) => Some(op),
        Instruction::STY(op) => Some(op),
        Instruction::DCP(op) => Some(op),
        Instruction::ISB(op) => Some(op),
        Instruction::LAX(op) => Some(op),
        Instruction::RLA(op) => Some(op),
        Instruction::RRA(op) => Some(op),
        Instruction::SAX(op) => Some(op),
        Instruction::SLO(op) => Some(op),
        Instruction::SRE(op) => Some(op),
        Instruction::Illegal(_, op) => op,
        _ => None,
    }
}

/// How deeply an instruction nests others: unofficial combined instructions
/// run two official ones, and `Illegal` runs the instruction it wraps.
pub open spec fn depth(i: Instruction) -> nat
    decreases i,
{
    match i {
        Instruction::Illegal(inner, _) => 2 + depth(*inner),
        Instruction::DCP(_) | Instruction::ISB(_) | Instruction::LAX(_) | Instruction::RLA(_)
        | Instruction::RRA(_) | Instruction::SLO(_) | Instruction::SRE(_) => 1,
        _ => 0,
    }
}

/// Whether executing the instruction is defined: every operand it evaluates can
/// be read, every operand it stores through can be written, and every jump target
/// is an address or an offset.
pub open spec fn executable(i: Instruction) -> bool
    decreases i,
{
    match i {
        Instruction::ADC(op) | Instruction::AND(op) | Instruction::BIT(op) | Instruction::CMP(op)
        | Instruction::CPX(op) | Instruction::CPY(op) | Instruction::EOR(op) | Instruction::LDA(op)
        | Instruction::LDX(op) | Instruction::LDY(op) | Instruction::ORA(op) | Instruction::SBC(op)
        | Instruction::LAX(op) => op.is_readable(),
        Instruction::ASL(op) | Instruction::LSR(op) | Instruction::ROL(op) | Instruction::ROR(op)
        | Instruction::INC(op) | Instruction::DEC(op) | Instruction::DCP(op) | Instruction::ISB(op)
        | Instruction::RLA(op) | Instruction::RRA(op) | Instruction::SLO(op) | Instruction::SRE(op) =>
            op.is_readable() && op.is_writable(),
        Instruction::STA(op) | Instruction::STX(op) | Instruction::STY(op) | Instruction::SAX(op) =>
            op.is_writable(),
        Instruction::BCC(op) | Instruction::BCS(op) | Instruction::BEQ(op) | Instruction::BMI(op)
        | Instruction::BNE(op) | Instruction::BPL(op) | Instruction::BVC(op) | Instruction::BVS(op)
        | Instruction::JMP(op) | Instruction::JSR(op) => op is Absolute || op is Indirect
            || op is Relative,
        Instruction::Illegal(inner, op) => executable(*inner) && (*inner is NOP ==> match op {
            Some(o) => o.is_readable(),
            None => true,
        }),
        _ => true,
    }
}

/// A well-formed instruction: it has a cycle count and can be executed.
pub open spec fn well_formed(i: Instruction) -> bool {
    cycles_spec(i) is Some && executable(i)
}

/// The mnemonic of an instruction; `Illegal` shows the instruction it wraps.
pub open spec fn mnemonic(i: Instruction) -> Seq<char> {
    match i {
        Instruction::Illegal(inner, _) => base_name(*inner),
        _ => base_name(i),
    }
}

/// The name of an instruction's own variant.
pub open spec fn base_name(i: Instruction) -> Seq<char> {
    match i {
        Instruction::ADC(_) => "ADC"@,
        Instruction::AND(_) => "AND"@,
        Instruction::ASL(_) => "ASL"@,
        Instruction::BCC(_) => "BCC"@,
        Instruction::BCS(_) => "BCS"@,
        Instruction::BEQ(_) => "BEQ"@,
        Instruction::BIT(_) => "BIT"@,
        Instruction::BMI(_) => "BMI"@,
        Instruction::BNE(_) => "BNE"@,
        Instruction::BPL(_) => "BPL"@,
        Instruction::BRK => "BRK"@,
        Instruction::BVC(_) => "BVC"@,
        Instruction::BVS(_) => "BVS"@,
        Instruction::CLC => "CLC"@,
        Instruction::CLD => "CLD"@,
        Instruction::CLI => "CLI"@,
        Instruction::CLV => "CLV"@,
        Instruction::CMP(_) => "CMP"@,
        Instruction::CPX(_) => "CPX"@,
        Instruction::CPY(_) => "CPY"@,
        Instruction::DEC(_) => "DEC"@,
        Instruction::DEX => "DEX"@,
        Instruction::DEY => "DEY"@,
        Instruction::EOR(_) => "EOR"@,
        Instruction::INC(_) => "INC"@,
        Instruction::INX => "INX"@,
        Instruction::INY => "INY"@,
        Instruction::JMP(_) => "JMP"@,
        Instruction::JSR(_) => "JSR"@,
        Instruction::LDA(_) => "LDA"@,
        Instruction::LDX(_) => "LDX"@,
        Instruction::LDY(_) => "LDY"@,
        Instruction::LSR(_) => "LSR"@,
        Instruction::NOP => "NOP"@,
        Instruction::ORA(_) => "ORA"@,
        Instruction::PHA => "PHA"@,
        Instruction::PHP => "PHP"@,
        Instruction::PLA => "PLA"@,
        Instruction::PLP => "PLP"@,
        Instruction::ROL(_) => "ROL"@,
        Instruction::ROR(_) => "ROR"@,
        Instruction::RTI => "RTI"@,
        Instruction::RTS => "RTS"@,
        Instruction::SBC(_) => "SBC"@,
        Instruction::SEC => "SEC"@,
        Instruction::SED => "SED"@,
        Instruction::SEI => "SEI"@,
        Instruction::STA(_) => "STA"@,
        Instruction::STX(_) => "STX"@,
        Instruction::STY(_) => "STY"@,
        Instruction::TAX => "TAX"@,
        Instruction::TAY => "TAY"@,
        Instruction::TSX => "TSX"@,
        Instruction::TXA => "TXA"@,
        Instruction::TXS => "TXS"@,
        Instruction::TYA => "TYA"@,
        Instruction::DCP(_) => "DCP"@,
        Instruction::ISB(_) => "ISB"@,
        Instruction::LAX(_) => "LAX"@,
        Instruction::RLA(_) => "RLA"@,
        Instruction::RRA(_) => "RRA"@,
        Instruction::SAX(_) => "SAX"@,
        Instruction::SLO(_) => "SLO"@,
        Instruction::SRE(_) => "SRE"@,
        Instruction::Illegal(_, _) => "Illegal"@,
    }
}

impl Instruction {
    /// The base cycle count, or `None` where the operand's addressing mode is not
    /// one the instruction has.
    pub fn cycles(&self) -> (r: Option<u8>)
        ensures
            r == cycles_spec(*self),
        decreases self,
    {
        match self {
      Instruction::ADC(op) => match op {
        Operand::Immediate(_) => Some(2u8),
        Operand::Absolute(_) => Some(4u8),
        Operand::AbsoluteX(_) => Some(4u8),
        Operand::AbsoluteY(_) => Some(4u8),
        Operand::ZeroPage(_) => Some(3u8),
        Operand::ZeroPageX(_) => Some(4u8),
        Operand::IndirectX(_) => Some(6u8),
        Operand::IndirectY(_) => Some(5u8),
        _ => None,
      },
      Instruction::AND(op) => match op {
        Operand::Immediate(_) => Some(2u8),
        Operand::Absolute(_) => Some(4u8),
        Operand::AbsoluteX(_) => Some(4u8),
        Operand::AbsoluteY(_) => Some(4u8),
        Operand::ZeroPage(_) => Some(3u8),
        Operand::ZeroPageX(_) => Some(4u8),
        Operand::IndirectX(_) => Some(6u8),
        Operand::IndirectY(_) => Some(5u8),
        _ => None,
      },
      Instruction::ASL(op) => match op {
        Operand::Accumulator => Some(2u8),
        Operand::Absolute(_) => Some(6u8),
        Operand::AbsoluteX(_) => Some(7u8),
        Operand::ZeroPage(_) => Some(5u8),
        Operand::ZeroPageX(_) => Some(6u8),
        _ => None,
      },
      Instruction::BCC(op) => match op {
        Operand::Relative(_) => Some(2u8),
        _ => None,
      },
      Instruction::BCS(op) => match op {
        Operand::Relative(_) => Some(2u8),
        _ => None,
      },
      Instruction::BEQ(op) => match op {
        Operand::Relative(_) => Some(2u8),
        _ => None,
      },
      Instruction::BIT(op) => match op {
        Operand::Absolute(_) => Some(4u8),
        Operand::ZeroPage(_) => Some(3u8),
        _ => None,
      },
      Instruction::BMI(op) => match op {
        Operand::Relative(_) => Some(2u8),
        _ => None,
      },
      Instruction::BNE(op) => match op {
        Operand::Relative(_) => Some(2u8),
        _ => None,
      },
      Instruction::BPL(op) => match op {
        Operand::Relative(_) => Some(2u8),
        _ => None,
      },
      Instruction::BRK => Some(7u8),
      Instruction::BVC(op) => match op {
        Operand::Relative(_) => Some(2u8),
        _ => None,
      },
      Instruction::BVS(op) => match op {
        Operand::Relative(_) => Some(2u8),
        _ => None,
      },
      Instruction::CLC => Some(2u8),
      Instruction::CLD => Some(2u8),
      Instruction::CLI => Some(2u8),
      Instruction::CLV => Some(2u8),
      Instruction::CMP(op) => match op {
        Operand::Immediate(_) => Some(2u8),
        Operand::Absolute(_) => Some(4u8),
        Operand::AbsoluteX(_) => Some(4u8),
        Operand::AbsoluteY(_) => Some(4u8),
        Operand::ZeroPage(_) => Some(3u8),
        Operand::ZeroPageX(_) => Some(4u8),
        Operand::IndirectX(_) => Some(6u8),
        Operand::IndirectY(_) => Some(5u8),
        _ => None,
      },
      Instruction::CPX(op) => match op {
        Operand::Immediate(_) => Some(2u8),
        Operand::Absolute(_) => Some(4u8),
        Operand::ZeroPage(_) => Some(3u8),
        _ => None,
      },
      Instruction::CPY(op) => match op {
        Operand::Immediate(_) => Some(2u8),
        Operand::Absolute(_) => Some(4u8),
        Operand::ZeroPage(_) => Some(3u8),
        _ => None,
      },
      Instruction::DEC(op) => match op {
        Operand::Absolute(_) => Some(6u8),
        Operand::AbsoluteX(_) => Some(7u8),
        Operand::ZeroPage(_) => Some(5u8),
        Operand::ZeroPageX(_) => Some(6u8),
        _ => None,
      },
      Instruction::DEX => Some(2u8),
      Instruction::DEY => Some(2u8),
      Instruction::EOR(op) => match op {
        Operand::Immediate(_) => Some(2u8),
        Operand::Absolute(_) => Some(4u8),
        Operand::AbsoluteX(_) => Some(4u8),
        Operand::AbsoluteY(_) => Some(4u8),
        Operand::ZeroPage(_) => Some(3u8),
        Operand::ZeroPageX(_) => Some(4u8),
        Operand::IndirectX(_) => Some(6u8),
        Operand::IndirectY(_) => Some(5u8),
        _ => None,
      },
      Instruction::INC(op) => match op {
        Operand::Absolute(_) => Some(6u8),
        Operand::AbsoluteX(_) => Some(7u8),
        Operand::ZeroPage(_) => Some(5u8),
        Operand::ZeroPageX(_) => Some(6u8),
        _ => None,
      },
      Instruction::INX => Some(2u8),
      Instruction::INY => Some(2u8),
      Instruction::JMP(op) => match op {
        Operand::Absolute(_) => Some(3u8),
        Operand::Indirect(_) => Some(5u8),
        _ => None,
      },
      Instruction::JSR(op) => match op {
        Operand::Absolute(_) => Some(6u8),
        _ => None,
      },
      Instruction::LDA(op) => match op {
        Operand::Immediate(_) => Some(2u8),
        Operand::Absolute(_) => Some(4u8),
        Operand::AbsoluteX(_) => Some(4u8),
        Operand::AbsoluteY(_) => Some(4u8),
        Operand::ZeroPage(_) => Some(3u8),
        Operand::ZeroPageX(_) => Some(4u8),
        Operand::IndirectX(_) => Some(6u8),
        Operand::IndirectY(_) => Some(5u8),
        _ => None,
      },
      Instruction::LDX(op) => match op {
        Operand::Immediate(_) => Some(2u8),
        Operand::Absolute(_) => Some(4u8),
        Operand::AbsoluteY(_) => Some(4u8),
        Operand::ZeroPage(_) => Some(3u8),
        Operand::ZeroPageY(_) => Some(4u8),
        _ => None,
      },
      Instruction::LDY(op) => match op {
        Operand::Immediate(_) => Some(2u8),
        Operand::Absolute(_) => Some(4u8),
        Operand::AbsoluteX(_) => Some(4u8),
        Operand::ZeroPage(_) => Some(3u8),
        Operand::ZeroPageX(_) => Some(4u8),
        _ => None,
      },
      Instruction::LSR(op) => match op {
        Operand::Accumulator => Some(2u8),
        Operand::ZeroPage(_) => Some(5u8),
        Operand::ZeroPageX(_) => Some(6u8),
        Operand::Absolute(_) => Some(6u8),
        Operand::AbsoluteX(_) => Some(7u8),
        _ => None,
      },
      Instruction::NOP => Some(2u8),
      Instruction::ORA(op) => match op {
        Operand::Immediate(_) => Some(2u8),
        Operand::Absolute(_) => Some(4u8),
        Operand::AbsoluteX(_) => Some(4u8),
        Operand::AbsoluteY(_) => Some(4u8),
        Operand::ZeroPage(_) => Some(3u8),
        Operand::ZeroPageX(_) => Some(4u8),
        Operand::IndirectX(_) => Some(6u8),
        Operand::IndirectY(_) => Some(5u8),
        _ => None,
      },
      Instruction::PHA => Some(3u8),
      Instruction::PHP => Some(3u8),
      Instruction::PLA => Some(4u8),
      Instruction::PLP => Some(4u8),
      Instruction::ROL(op) => match op {
        Operand::Accumulator => Some(2u8),
        Operand::Absolute(_) => Some(6u8),
        Operand::AbsoluteX(_) => Some(7u8),
        Operand::ZeroPage(_) => Some(5u8),
        Operand::ZeroPageX(_) => Some(6u8),
        _ => None,
      },
      Instruction::ROR(op) => match op {
        Operand::Accumulator => Some(2u8),
        Operand::Absolute(_) => Some(6u8),
        Operand::AbsoluteX(_) => Some(7u8),
        Operand::ZeroPage(_) => Some(5u8),
        Operand::ZeroPageX(_) => Some(6u8),
        _ => None,
      },
      Instruction::RTI => Some(6u8),
      Instruction::RTS => Some(6u8),
      Instruction::SBC(op) => match op {
        Operand::Immediate(_) => Some(2u8),
        Operand::Absolute(_) => Some(4u8),
        Operand::AbsoluteX(_) => Some(4u8),
        Operand::AbsoluteY(_) => Some(4u8),
        Operand::ZeroPage(_) => Some(3u8),
        Operand::ZeroPageX(_) => Some(4u8),
        Operand::IndirectX(_) => Some(6u8),
        Operand::IndirectY(_) => Some(5u8),
        _ => None,
      },
      Instruction::SEC => Some(2u8),
      Instruction::SED => Some(2u8),
      Instruction::SEI => Some(2u8),
      Instruction::STA(op) => match op {
        Operand::Absolute(_) => Some(4u8),
        Operand::AbsoluteX(_) => Some(5u8),
        Operand::AbsoluteY(_) => Some(5u8),
        Operand::ZeroPage(_) => Some(3u8),
        Operand::ZeroPageX(_) => Some(4u8),
        Operand::IndirectX(_) => Some(6u8),
        Operand::IndirectY(_) => Some(6u8),
        _ => None,
      },
      Instruction::STX(op) => match op {
        Operand::ZeroPage(_) => Some(3u8),
        Operand::ZeroPageY(_) => Some(4u8),
        Operand::Absolute(_) => Some(4u8),
        _ => None,
      },
      Instruction::STY(op) => match op {
        Operand::ZeroPage(_) => Some(3u8),
        Operand::ZeroPageX(_) => Some(4u8),
        Operand::Absolute(_) => Some(4u8),
        _ => None,
      },
      Instruction::TAX => Some(2u8),
      Instruction::TAY => Some(2u8),
      Instruction::TSX => Some(2u8),
      Instruction::TXA => Some(2u8),
      Instruction::TXS => Some(2u8),
      Instruction::TYA => Some(2u8),

      Instruction::Illegal(instruction, op) => match &**instruction {
        Instruction::NOP => match op {
          Some(Operand::Absolute(_)) => Some(4u8),
          Some(Operand::AbsoluteX(_)) => Some(4u8),
          Some(Operand::ZeroPage(_)) => Some(3u8),
          Some(Operand::ZeroPageX(_)) => Some(4u8),
          _ => instruction.cycles(),
        },
        _ => instruction.cycles(),
      },

      // Unofficial instructions
      Instruction::DCP(op) => match op {
        Operand::IndirectX(_) => Some(8u8),
        Operand::ZeroPage(_) => Some(5u8),
        Operand::Absolute(_) => Some(6u8),
        Operand::IndirectY(_) => Some(8u8),
        Operand::ZeroPageX(_) => Some(6u8),
        Operand::AbsoluteY(_) => Some(7u8),
        Operand::AbsoluteX(_) => Some(7u8),
        _ => None,
      },
      Instruction::ISB(op) => match op {
        Operand::IndirectX(_) => Some(8u8),
        Operand::ZeroPage(_) => Some(5u8),
        Operand::Absolute(_) => Some(6u8),
        Operand::IndirectY(_) => Some(8u8),
        Operand::ZeroPageX(_) => Some(6u8),
        Operand::AbsoluteY(_) => Some(7u8),
        Operand::AbsoluteX(_) => Some(7u8),
        _ => None,
      },
      Instruction::LAX(op) => match op {
        Operand::Absolute(_) => Some(4u8),
        Operand::AbsoluteY(_) => Some(4u8),
        Operand::ZeroPage(_) => Some(3u8),
        Operand::ZeroPageY(_) => Some(4u8),
        Operand::IndirectX(_) => Some(6u8),
        Operand::IndirectY(_) => Some(5u8),
        _ => None,
      },
      Instruction::RLA(op) => match op {
        Operand::IndirectX(_) => Some(8u8),
        Operand::ZeroPage(_) => Some(5u8),
        Operand::Absolute(_) => Some(6u8),
        Operand::IndirectY(_) => Some(8u8),
        Operand::ZeroPageX(_) => Some(6u8),
        Operand::AbsoluteY(_) => Some(7u8),
        Operand::AbsoluteX(_) => Some(7u8),
        _ => None,
      },
      Instruction::RRA(op) => match op {
        Operand::IndirectX(_) => Some(8u8),
        Operand::ZeroPage(_) => Some(5u8),
        Operand::Absolute(_) => Some(6u8),
        Operand::IndirectY(_) => Some(8u8),
        Operand::ZeroPageX(_) => Some(6u8),
        Operand::AbsoluteY(_) => Some(7u8),
        Operand::AbsoluteX(_) => Some(7u8),
        _ => None,
      },
      Instruction::SAX(op) => match op {
        Operand::IndirectX(_) => Some(6u8),
        Operand::ZeroPage(_) => Some(3u8),
        Operand::Absolute(_) => Some(4u8),
        Operand::ZeroPageY(_) => Some(4u8),
        _ => None,
      },
      Instruction::SLO(op) => match op {
        Operand::IndirectX(_) => Some(8u8),
        Operand::ZeroPage(_) => Some(5u8),
        Operand::Absolute(_) => Some(6u8),
        Operand::IndirectY(_) => Some(8u8),
        Operand::ZeroPageX(_) => Some(6u8),
        Operand::AbsoluteY(_) => Some(7u8),
        Operand::AbsoluteX(_) => Some(7u8),
        _ => None,
      },
      Instruction::SRE(op) => match op {
        Operand::IndirectX(_) => Some(8u8),
        Operand::ZeroPage(_) => Some(5u8),
        Operand::Absolute(_) => Some(6u8),
        Operand::IndirectY(_) => Some(8u8),
        Operand::ZeroPageX(_) => Some(6u8),
        Operand::AbsoluteY(_) => Some(7u8),
        Operand::AbsoluteX(_) => Some(7u8),
        _ => None,
      },
    }
    }

    /// A copy of the instruction.
    pub fn duplicate(&self) -> (r: Instruction)
        ensures
            r == *self,
        decreases self,
    {
        match self {
            Instruction::Illegal(inner, op) => Instruction::Illegal(
                Box::new(inner.duplicate()),
                *op,
            ),
            Instruction::ADC(op) => Instruction::ADC(*op),
            Instruction::AND(op) => Instruction::AND(*op),
            Instruction::ASL(op) => Instruction::ASL(*op),
            Instruction::BCC(op) => Instruction::BCC(*op),
            Instruction::BCS(op) => Instruction::BCS(*op),
            Instruction::BEQ(op) => Instruction::BEQ(*op),
            Instruction::BIT(op) => Instruction::BIT(*op),
            Instruction::BMI(op) => Instruction::BMI(*op),
            Instruction::BNE(op) => Instruction::BNE(*op),
            Instruction::BPL(op) => Instruction::BPL(*op),
            Instruction::BRK => Instruction::BRK,
            Instruction::BVC(op) => Instruction::BVC(*op),
            Instruction::BVS(op) => Instruction::BVS(*op),
            Instruction::CLC => Instruction::CLC,
            Instruction::CLD => Instruction::CLD,
            Instruction::CLI => Instruction::CLI,
            Instruction::CLV => Instruction::CLV,
            Instruction::CMP(op) => Instruction::CMP(*op),
            Instruction::CPX(op) => Instruction::CPX(*op),
            Instruction::CPY(op) => Instruction::CPY(*op),
            Instruction::DEC(op) => Instruction::DEC(*op),
            Instruction::DEX => Instruction::DEX,
            Instruction::DEY => Instruction::DEY,
            Instruction::EOR(op) => Instruction::EOR(*op),
            Instruction::INC(op) => Instruction::INC(*op),
            Instruction::INX => Instruction::INX,
            Instruction::INY => Instruction::INY,
            Instruction::JMP(op) => Instruction::JMP(*op),
            Instruction::JSR(op) => Instruction::JSR(*op),
            Instruction::LDA(op) => Instruction::LDA(*op),
            Instruction::LDX(op) => Instruction::LDX(*op),
            Instruction::LDY(op) => Instruction::LDY(*op),
            Instruction::LSR(op) => Instruction::LSR(*op),
            Instruction::NOP => Instruction::NOP,
            Instruction::ORA(op) => Instruction::ORA(*op),
            Instruction::PHA => Instruction::PHA,
            Instruction::PHP => Instruction::PHP,
            Instruction::PLA => Instruction::PLA,
            Instruction::PLP => Instruction::PLP,
            Instruction::ROL(op) => Instruction::ROL(*op),
            Instruction::ROR(op) => Instruction::ROR(*op),
            Instruction::RTI => Instruction::RTI,
            Instruction::RTS => Instruction::RTS,
            Instruction::SBC(op) => Instruction::SBC(*op),
            Instruction::SEC => Instruction::SEC,
            Instruction::SED => Instruction::SED,
            Instruction::SEI => Instruction::SEI,
            Instruction::STA(op) => Instruction::STA(*op),
            Instruction::STX(op) => Instruction::STX(*op),
            Instruction::STY(op) => Instruction::STY(*op),
            Instruction::TAX => Instruction::TAX,
            Instruction::TAY => Instruction::TAY,
            Instruction::TSX => Instruction::TSX,
            Instruction::TXA => Instruction::TXA,
            Instruction::TXS => Instruction::TXS,
            Instruction::TYA => Instruction::TYA,
            Instruction::DCP(op) => Instruction::DCP(*op),
            Instruction::ISB(op) => Instruction::ISB(*op),
            Instruction::LAX(op) => Instruction::LAX(*op),
            Instruction::RLA(op) => Instruction::RLA(*op),
            Instruction::RRA(op) => Instruction::RRA(*op),
            Instruction::SAX(op) => Instruction::SAX(*op),
            Instruction::SLO(op) => Instruction::SLO(*op),
            Instruction::SRE(op) => Instruction::SRE(*op),
        }
    }

    /// The base cycle count of a well-formed instruction.
    pub fn base_cycles(&self) -> (r: u8)
        requires
            cycles_spec(*self) is Some,
        ensures
            Some(r) == cycles_spec(*self),
    {
        match self.cycles() {
            Some(c) => c,
            None => 0,
        }
    }

    /// The operand the instruction carries, if any.
    pub fn operand(&self) -> (r: Option<Operand>)
        ensures
            r == operand_spec(*self),
    {
        match self {
            Instruction::ADC(op) => Some(*op),
            Instruction::AND(op) => Some(*op),
            Instruction::ASL(op) => Some(*op),
            Instruction::BCC(op) => Some(*op),
            Instruction::BCS(op) => Some(*op),
            Instruction::BEQ(op) => Some(*op),
            Instruction::BIT(op) => Some(*op),
            Instruction::BMI(op) => Some(*op),
            Instruction::BNE(op) => Some(*op),
            Instruction::BPL(op) => Some(*op),
            Instruction::BVC(op) => Some(*op),
            Instruction::BVS(op) => Some(*op),
            Instruction::CMP(op) => Some(*op),
            Instruction::CPX(op) => Some(*op),
            Instruction::CPY(op) => Some(*op),
            Instruction::DEC(op) => Some(*op),
            Instruction::EOR(op) => Some(*op),
            Instruction::INC(op) => Some(*op),
            Instruction::JMP(op) => Some(*op),
            Instruction::JSR(op) => Some(*op),
            Instruction::LDA(op) => Some(*op),
            Instruction::LDX(op) => Some(*op),
            Instruction::LDY(op) => Some(*op),
            Instruction::LSR(op) => Some(*op),
            Instruction::ORA(op) => Some(*op),
            Instruction::ROL(op) => Some(*op),
            Instruction::ROR(op) => Some(*op),
            Instruction::SBC(op) => Some(*op),
            Instruction::STA(op) => Some(*op),
            Instruction::STX(op) => Some(*op),
            Instruction::STY(op) => Some(*op),
            Instruction::DCP(op) => Some(*op),
            Instruction::ISB(op) => Some(*op),
            Instruction::LAX(op) => Some(*op),
            Instruction::RLA(op) => Some(*op),
            Instruction::RRA(op) => Some(*op),
            Instruction::SAX(op) => Some(*op),
            Instruction::SLO(op) => Some(*op),
            Instruction::SRE(op) => Some(*op),
            Instruction::Illegal(_instruction, op) => *op,
            _ => None,
        }
    }

    /// The name of the instruction's own variant.
    pub fn variant_name(&self) -> (r: &'static str)
        ensures
            r@ == base_name(*self),
    {
        match self {
            Instruction::ADC(_) => "ADC",
            Instruction::AND(_) => "AND",
            Instruction::ASL(_) => "ASL",
            Instruction::BCC(_) => "BCC",
            Instruction::BCS(_) => "BCS",
            Instruction::BEQ(_) => "BEQ",
            Instruction::BIT(_) => "BIT",
            Instruction::BMI(_) => "BMI",
            Instruction::BNE(_) => "BNE",
            Instruction::BPL(_) => "BPL",
            Instruction::BRK => "BRK",
            Instruction::BVC(_) => "BVC",
            Instruction::BVS(_) => "BVS",
            Instruction::CLC => "CLC",
            Instruction::CLD => "CLD",
            Instruction::CLI => "CLI",
            Instruction::CLV => "CLV",
            Instruction::CMP(_) => "CMP",
            Instruction::CPX(_) => "CPX",
            Instruction::CPY(_) => "CPY",
            Instruction::DEC(_) => "DEC",
            Instruction::DEX => "DEX",
            Instruction::DEY => "DEY",
            Instruction::EOR(_) => "EOR",
            Instruction::INC(_) => "INC",
            Instruction::INX => "INX",
            Instruction::INY => "INY",
            Instruction::JMP(_) => "JMP",
            Instruction::JSR(_) => "JSR",
            Instruction::LDA(_) => "LDA",
            Instruction::LDX(_) => "LDX",
            Instruction::LDY(_) => "LDY",
            Instruction::LSR(_) => "LSR",
            Instruction::NOP => "NOP",
            Instruction::ORA(_) => "ORA",
            Instruction::PHA => "PHA",
            Instruction::PHP => "PHP",
            Instruction::PLA => "PLA",
            Instruction::PLP => "PLP",
            Instruction::ROL(_) => "ROL",
            Instruction::ROR(_) => "ROR",
            Instruction::RTI => "RTI",
            Instruction::RTS => "RTS",
            Instruction::SBC(_) => "SBC",
            Instruction::SEC => "SEC",
            Instruction::SED => "SED",
            Instruction::SEI => "SEI",
            Instruction::STA(_) => "STA",
            Instruction::STX(_) => "STX",
            Instruction::STY(_) => "STY",
            Instruction::TAX => "TAX",
            Instruction::TAY => "TAY",
            Instruction::TSX => "TSX",
            Instruction::TXA => "TXA",
            Instruction::TXS => "TXS",
            Instruction::TYA => "TYA",
            Instruction::DCP(_) => "DCP",
            Instruction::ISB(_) => "ISB",
            Instruction::LAX(_) => "LAX",
            Instruction::RLA(_) => "RLA",
            Instruction::RRA(_) => "RRA",
            Instruction::SAX(_) => "SAX",
            Instruction::SLO(_) => "SLO",
            Instruction::SRE(_) => "SRE",
            Instruction::Illegal(_, _) => "Illegal",
        }
    }
}

/// How many operand bytes follow `opcode`, or `None` for an unknown opcode.
pub open spec fn operand_size_spec(opcode: u8) -> Option<u8> {
    match opcode {
        0x00 => Some(0u8),
        0x01 => Some(1u8),
        0x03 => Some(1u8),
        0x04 => Some(1u8),
        0x05 => Some(1u8),
        0x06 => Some(1u8),
        0x07 => Some(1u8),
        0x08 => Some(0u8),
        0x09 => Some(1u8),
        0x0a => Some(0u8),
        0x0c => Some(2u8),
        0x0d => Some(2u8),
        0x0e => Some(2u8),
        0x0f => Some(2u8),
        0x10 => Some(1u8),
        0x11 => Some(1u8),
        0x13 => Some(1u8),
        0x14 => Some(1u8),
        0x15 => Some(1u8),
        0x16 => Some(1u8),
        0x17 => Some(1u8),
        0x18 => Some(0u8),
        0x19 => Some(2u8),
        0x1a => Some(0u8),
        0x1b => Some(2u8),
        0x1c => Some(2u8),
        0x1d => Some(2u8),
        0x1e => Some(2u8),
        0x1f => Some(2u8),
        0x20 => Some(2u8),
        0x21 => Some(1u8),
        0x23 => Some(1u8),
        0x24 => Some(1u8),
        0x25 => Some(1u8),
        0x26 => Some(1u8),
        0x27 => Some(1u8),
        0x28 => Some(0u8),
        0x29 => Some(1u8),
        0x2a => Some(0u8),
        0x2c => Some(2u8),
        0x2d => Some(2u8),
        0x2e => Some(2u8),
        0x2f => Some(2u8),
        0x30 => Some(1u8),
        0x31 => Some(1u8),
        0x33 => Some(1u8),
        0x34 => Some(1u8),
        0x35 => Some(1u8),
        0x36 => Some(1u8),
        0x37 => Some(1u8),
        0x38 => Some(0u8),
        0x39 => Some(2u8),
        0x3a => Some(0u8),
        0x3b => Some(2u8),
        0x3c => Some(2u8),
        0x3d => Some(2u8),
        0x3e => Some(2u8),
        0x3f => Some(2u8),
        0x40 => Some(0u8),
        0x41 => Some(1u8),
        0x43 => Some(1u8),
        0x44 => Some(1u8),
        0x45 => Some(1u8),
        0x46 => Some(1u8),
        0x47 => Some(1u8),
        0x48 => Some(0u8),
        0x49 => Some(1u8),
        0x4a => Some(0u8),
        0x4c => Some(2u8),
        0x4d => Some(2u8),
        0x4e => Some(2u8),
        0x4f => Some(2u8),
        0x50 => Some(1u8),
        0x51 => Some(1u8),
        0x53 => Some(1u8),
        0x54 => Some(1u8),
        0x55 => Some(1u8),
        0x56 => Some(1u8),
        0x57 => Some(1u8),
        0x58 => Some(0u8),
        0x59 => Some(2u8),
        0x5a => Some(0u8),
        0x5b => Some(2u8),
        0x5c => Some(2u8),
        0x5d => Some(2u8),
        0x5e => Some(2u8),
        0x5f => Some(2u8),
        0x60 => Some(0u8),
        0x61 => Some(1u8),
        0x63 => Some(1u8),
        0x64 => Some(1u8),
        0x65 => Some(1u8),
        0x66 => Some(1u8),
        0x67 => Some(1u8),
        0x68 => Some(0u8),
        0x69 => Some(1u8),
        0x6a => Some(0u8),
        0x6c => Some(2u8),
        0x6d => Some(2u8),
        0x6e => Some(2u8),
        0x6f => Some(2u8),
        0x70 => Some(1u8),
        0x71 => Some(1u8),
        0x73 => Some(1u8),
        0x74 => Some(1u8),
        0x75 => Some(1u8),
        0x76 => Some(1u8),
        0x77 => Some(1u8),
        0x78 => Some(0u8),
        0x79 => Some(2u8),
        0x7a => Some(0u8),
        0x7b => Some(2u8),
        0x7c => Some(2u8),
        0x7d => Some(2u8),
        0x7e => Some(2u8),
        0x7f => Some(2u8),
        0x80 => Some(1u8),
        0x81 => Some(1u8),
        0x83 => Some(1u8),
        0x84 => Some(1u8),
        0x85 => Some(1u8),
        0x86 => Some(1u8),
        0x87 => Some(1u8),
        0x88 => Some(0u8),
        0x8a => Some(0u8),
        0x8c => Some(2u8),
        0x8d => Some(2u8),
        0x8e => Some(2u8),
        0x8f => Some(2u8),
        0x90 => Some(1u8),
        0x91 => Some(1u8),
        0x94 => Some(1u8),
        0x95 => Some(1u8),
        0x96 => Some(1u8),
        0x97 => Some(1u8),
        0x98 => Some(0u8),
        0x99 => Some(2u8),
        0x9a => Some(0u8),
        0x9d => Some(2u8),
        0xa0 => Some(1u8),
        0xa1 => Some(1u8),
        0xa2 => Some(1u8),
        0xa3 => Some(1u8),
        0xa4 => Some(1u8),
        0xa5 => Some(1u8),
        0xa6 => Some(1u8),
        0xa7 => Some(1u8),
        0xa8 => Some(0u8),
        0xa9 => Some(1u8),
        0xaa => Some(0u8),
        0xac => Some(2u8),
        0xad => Some(2u8),
        0xae => Some(2u8),
        0xaf => Some(2u8),
        0xb0 => Some(1u8),
        0xb1 => Some(1u8),
        0xb3 => Some(1u8),
        0xb4 => Some(1u8),
        0xb5 => Some(1u8),
        0xb6 => Some(1u8),
        0xb7 => Some(1u8),
        0xb8 => Some(0u8),
        0xb9 => Some(2u8),
        0xba => Some(0u8),
        0xbc => Some(2u8),
        0xbd => Some(2u8),
        0xbe => Some(2u8),
        0xbf => Some(2u8),
        0xc0 => Some(1u8),
        0xc1 => Some(1u8),
        0xc3 => Some(1u8),
        0xc4 => Some(1u8),
        0xc5 => Some(1u8),
        0xc6 => Some(1u8),
        0xc7 => Some(1u8),
        0xc8 => Some(0u8),
        0xc9 => Some(1u8),
        0xca => Some(0u8),
        0xcc => Some(2u8),
        0xcd => Some(2u8),
        0xce => Some(2u8),
        0xcf => Some(2u8),
        0xd0 => Some(1u8),
        0xd1 => Some(1u8),
        0xd3 => Some(1u8),
        0xd4 => Some(1u8),
        0xd5 => Some(1u8),
        0xd6 => Some(1u8),
        0xd7 => Some(1u8),
        0xd8 => Some(0u8),
        0xd9 => Some(2u8),
        0xda => Some(0u8),
        0xdb => Some(2u8),
        0xdc => Some(2u8),
        0xdd => Some(2u8),
        0xde => Some(2u8),
        0xdf => Some(2u8),
        0xe0 => Some(1u8),
        0xe1 => Some(1u8),
        0xe3 => Some(1u8),
        0xe4 => Some(1u8),
        0xe5 => Some(1u8),
        0xe6 => Some(1u8),
        0xe7 => Some(1u8),
        0xe8 => Some(0u8),
        0xe9 => Some(1u8),
        0xea => Some(0u8),
        0xeb => Some(1u8),
        0xec => Some(2u8),
        0xed => Some(2u8),
        0xee => Some(2u8),
        0xef => Some(2u8),
        0xf0 => Some(1u8),
        0xf1 => Some(1u8),
        0xf3 => Some(1u8),
        0xf4 => Some(1u8),
        0xf5 => Some(1u8),
        0xf6 => Some(1u8),
        0xf7 => Some(1u8),
        0xf8 => Some(0u8),
        0xf9 => Some(2u8),
        0xfa => Some(0u8),
        0xfb => Some(2u8),
        0xfc => Some(2u8),
        0xfd => Some(2u8),
        0xfe => Some(2u8),
        0xff => Some(2u8),
        _ => None,
    }
}

/// How many operand bytes follow `opcode`, or `None` for an unknown opcode.
pub fn operand_size(opcode: u8) -> (r: Option<u8>)
    ensures
        r == operand_size_spec(opcode),
{
    match opcode {
        0x00 => Some(0u8),
        0x01 => Some(1u8),
        0x03 => Some(1u8),
        0x04 => Some(1u8),
        0x05 => Some(1u8),
        0x06 => Some(1u8),
        0x07 => Some(1u8),
        0x08 => Some(0u8),
        0x09 => Some(1u8),
        0x0a => Some(0u8),
        0x0c => Some(2u8),
        0x0d => Some(2u8),
        0x0e => Some(2u8),
        0x0f => Some(2u8),
        0x10 => Some(1u8),
        0x11 => Some(1u8),
        0x13 => Some(1u8),
        0x14 => Some(1u8),
        0x15 => Some(1u8),
        0x16 => Some(1u8),
        0x17 => Some(1u8),
        0x18 => Some(0u8),
        0x19 => Some(2u8),
        0x1a => Some(0u8),
        0x1b => Some(2u8),
        0x1c => Some(2u8),
        0x1d => Some(2u8),
        0x1e => Some(2u8),
        0x1f => Some(2u8),
        0x20 => Some(2u8),
        0x21 => Some(1u8),
        0x23 => Some(1u8),
        0x24 => Some(1u8),
        0x25 => Some(1u8),
        0x26 => Some(1u8),
        0x27 => Some(1u8),
        0x28 => Some(0u8),
        0x29 => Some(1u8),
        0x2a => Some(0u8),
        0x2c => Some(2u8),
        0x2d => Some(2u8),
        0x2e => Some(2u8),
        0x2f => Some(2u8),
        0x30 => Some(1u8),
        0x31 => Some(1u8),
        0x33 => Some(1u8),
        0x34 => Some(1u8),
        0x35 => Some(1u8),
        0x36 => Some(1u8),
        0x37 => Some(1u8),
        0x38 => Some(0u8),
        0x39 => Some(2u8),
        0x3a => Some(0u8),
        0x3b => Some(2u8),
        0x3c => Some(2u8),
        0x3d => Some(2u8),
        0x3e => Some(2u8),
        0x3f => Some(2u8),
        0x40 => Some(0u8),
        0x41 => Some(1u8),
        0x43 => Some(1u8),
        0x44 => Some(1u8),
        0x45 => Some(1u8),
        0x46 => Some(1u8),
        0x47 => Some(1u8),
        0x48 => Some(0u8),
        0x49 => Some(1u8),
        0x4a => Some(0u8),
        0x4c => Some(2u8),
        0x4d => Some(2u8),
        0x4e => Some(2u8),
        0x4f => Some(2u8),
        0x50 => Some(1u8),
        0x51 => Some(1u8),
        0x53 => Some(1u8),
        0x54 => Some(1u8),
        0x55 => Some(1u8),
        0x56 => Some(1u8),
        0x57 => Some(1u8),
        0x58 => Some(0u8),
        0x59 => Some(2u8),
        0x5a => Some(0u8),
        0x5b => Some(2u8),
        0x5c => Some(2u8),
        0x5d => Some(2u8),
        0x5e => Some(2u8),
        0x5f => Some(2u8),
        0x60 => Some(0u8),
        0x61 => Some(1u8),
        0x63 => Some(1u8),
        0x64 => Some(1u8),
        0x65 => Some(1u8),
        0x66 => Some(1u8),
        0x67 => Some(1u8),
        0x68 => Some(0u8),
        0x69 => Some(1u8),
        0x6a => Some(0u8),
        0x6c => Some(2u8),
        0x6d => Some(2u8),
        0x6e => Some(2u8),
        0x6f => Some(2u8),
        0x70 => Some(1u8),
        0x71 => Some(1u8),
        0x73 => Some(1u8),
        0x74 => Some(1u8),
        0x75 => Some(1u8),
        0x76 => Some(1u8),
        0x77 => Some(1u8),
        0x78 => Some(0u8),
        0x79 => Some(2u8),
        0x7a => Some(0u8),
        0x7b => Some(2u8),
        0x7c => Some(2u8),
        0x7d => Some(2u8),
        0x7e => Some(2u8),
        0x7f => Some(2u8),
        0x80 => Some(1u8),
        0x81 => Some(1u8),
        0x83 => Some(1u8),
        0x84 => Some(1u8),
        0x85 => Some(1u8),
        0x86 => Some(1u8),
        0x87 => Some(1u8),
        0x88 => Some(0u8),
        0x8a => Some(0u8),
        0x8c => Some(2u8),
        0x8d => Some(2u8),
        0x8e => Some(2u8),
        0x8f => Some(2u8),
        0x90 => Some(1u8),
        0x91 => Some(1u8),
        0x94 => Some(1u8),
        0x95 => Some(1u8),
        0x96 => Some(1u8),
        0x97 => Some(1u8),
        0x98 => Some(0u8),
        0x99 => Some(2u8),
        0x9a => Some(0u8),
        0x9d => Some(2u8),
        0xa0 => Some(1u8),
        0xa1 => Some(1u8),
        0xa2 => Some(1u8),
        0xa3 => Some(1u8),
        0xa4 => Some(1u8),
        0xa5 => Some(1u8),
        0xa6 => Some(1u8),
        0xa7 => Some(1u8),
        0xa8 => Some(0u8),
        0xa9 => Some(1u8),
        0xaa => Some(0u8),
        0xac => Some(2u8),
        0xad => Some(2u8),
        0xae => Some(2u8),
        0xaf => Some(2u8),
        0xb0 => Some(1u8),
        0xb1 => Some(1u8),
        0xb3 => Some(1u8),
        0xb4 => Some(1u8),
        0xb5 => Some(1u8),
        0xb6 => Some(1u8),
        0xb7 => Some(1u8),
        0xb8 => Some(0u8),
        0xb9 => Some(2u8),
        0xba => Some(0u8),
        0xbc => Some(2u8),
        0xbd => Some(2u8),
        0xbe => Some(2u8),
        0xbf => Some(2u8),
        0xc0 => Some(1u8),
        0xc1 => Some(1u8),
        0xc3 => Some(1u8),
        0xc4 => Some(1u8),
        0xc5 => Some(1u8),
        0xc6 => Some(1u8),
        0xc7 => Some(1u8),
        0xc8 => Some(0u8),
        0xc9 => Some(1u8),
        0xca => Some(0u8),
        0xcc => Some(2u8),
        0xcd => Some(2u8),
        0xce => Some(2u8),
        0xcf => Some(2u8),
        0xd0 => Some(1u8),
        0xd1 => Some(1u8),
        0xd3 => Some(1u8),
        0xd4 => Some(1u8),
        0xd5 => Some(1u8),
        0xd6 => Some(1u8),
        0xd7 => Some(1u8),
        0xd8 => Some(0u8),
        0xd9 => Some(2u8),
        0xda => Some(0u8),
        0xdb => Some(2u8),
        0xdc => Some(2u8),
        0xdd => Some(2u8),
        0xde => Some(2u8),
        0xdf => Some(2u8),
        0xe0 => Some(1u8),
        0xe1 => Some(1u8),
        0xe3 => Some(1u8),
        0xe4 => Some(1u8),
        0xe5 => Some(1u8),
        0xe6 => Some(1u8),
        0xe7 => Some(1u8),
        0xe8 => Some(0u8),
        0xe9 => Some(1u8),
        0xea => Some(0u8),
        0xeb => Some(1u8),
        0xec => Some(2u8),
        0xed => Some(2u8),
        0xee => Some(2u8),
        0xef => Some(2u8),
        0xf0 => Some(1u8),
        0xf1 => Some(1u8),
        0xf3 => Some(1u8),
        0xf4 => Some(1u8),
        0xf5 => Some(1u8),
        0xf6 => Some(1u8),
        0xf7 => Some(1u8),
        0xf8 => Some(0u8),
        0xf9 => Some(2u8),
        0xfa => Some(0u8),
        0xfb => Some(2u8),
        0xfc => Some(2u8),
        0xfd => Some(2u8),
        0xfe => Some(2u8),
        0xff => Some(2u8),
        _ => None,
    }
}

/// The instruction that `opcode` encodes, with its operand bytes `lo` and `hi`
/// (those beyond the opcode's operand size are ignored), or `None` for an opcode
/// the CPU does not know.
pub open spec fn decode_spec(opcode: u8, lo: u8, hi: u8) -> Option<Instruction> {
    let addr = word_spec(lo, hi);
    match opcode {
        0x00 => Some(Instruction::BRK),
        0x01 => Some(Instruction::ORA(Operand::IndirectX(lo))),
        0x03 => Some(Instruction::Illegal(Box::new(Instruction::SLO(Operand::IndirectX(lo))), Some(Operand::IndirectX(lo)))),
        0x04 => Some(Instruction::Illegal(Box::new(Instruction::NOP), Some(Operand::ZeroPage(lo)))),
        0x05 => Some(Instruction::ORA(Operand::ZeroPage(lo))),
        0x06 => Some(Instruction::ASL(Operand::ZeroPage(lo))),
        0x07 => Some(Instruction::Illegal(Box::new(Instruction::SLO(Operand::ZeroPage(lo))), Some(Operand::ZeroPage(lo)))),
        0x08 => Some(Instruction::PHP),
        0x09 => Some(Instruction::ORA(Operand::Immediate(lo))),
        0x0a => Some(Instruction::ASL(Operand::Accumulator)),
        0x0c => Some(Instruction::Illegal(Box::new(Instruction::NOP), Some(Operand::Absolute(addr)))),
        0x0d => Some(Instruction::ORA(Operand::Absolute(addr))),
        0x0e => Some(Instruction::ASL(Operand::Absolute(addr))),
        0x0f => Some(Instruction::Illegal(Box::new(Instruction::SLO(Operand::Absolute(addr))), Some(Operand::Absolute(addr)))),
        0x10 => Some(Instruction::BPL(Operand::Relative((lo as i8)))),
        0x11 => Some(Instruction::ORA(Operand::IndirectY(lo))),
        0x13 => Some(Instruction::Illegal(Box::new(Instruction::SLO(Operand::IndirectY(lo))), Some(Operand::IndirectY(lo)))),
        0x14 => Some(Instruction::Illegal(Box::new(Instruction::NOP), Some(Operand::ZeroPageX(lo)))),
        0x15 => Some(Instruction::ORA(Operand::ZeroPageX(lo))),
        0x16 => Some(Instruction::ASL(Operand::ZeroPageX(lo))),
        0x17 => Some(Instruction::Illegal(Box::new(Instruction::SLO(Operand::ZeroPageX(lo))), Some(Operand::ZeroPageX(lo)))),
        0x18 => Some(Instruction::CLC),
        0x19 => Some(Instruction::ORA(Operand::AbsoluteY(addr))),
        0x1a => Some(Instruction::Illegal(Box::new(Instruction::NOP), None)),
        0x1b => Some(Instruction::Illegal(Box::new(Instruction::SLO(Operand::AbsoluteY(addr))), Some(Operand::AbsoluteY(addr)))),
        0x1c => Some(Instruction::Illegal(Box::new(Instruction::NOP), Some(Operand::AbsoluteX(addr)))),
        0x1d => Some(Instruction::ORA(Operand::AbsoluteX(addr))),
        0x1e => Some(Instruction::ASL(Operand::AbsoluteX(addr))),
        0x1f => Some(Instruction::Illegal(Box::new(Instruction::SLO(Operand::AbsoluteX(addr))), Some(Operand::AbsoluteX(addr)))),
        0x20 => Some(Instruction::JSR(Operand::Absolute(addr))),
        0x21 => Some(Instruction::AND(Operand::IndirectX(lo))),
        0x23 => Some(Instruction::Illegal(Box::new(Instruction::RLA(Operand::IndirectX(lo))), Some(Operand::IndirectX(lo)))),
        0x24 => Some(Instruction::BIT(Operand::ZeroPage(lo))),
        0x25 => Some(Instruction::AND(Operand::ZeroPage(lo))),
        0x26 => Some(Instruction::ROL(Operand::ZeroPage(lo))),
        0x27 => Some(Instruction::Illegal(Box::new(Instruction::RLA(Operand::ZeroPage(lo))), Some(Operand::ZeroPage(lo)))),
        0x28 => Some(Instruction::PLP),
        0x29 => Some(Instruction::AND(Operand::Immediate(lo))),
        0x2a => Some(Instruction::ROL(Operand::Accumulator)),
        0x2c => Some(Instruction::BIT(Operand::Absolute(addr))),
        0x2d => Some(Instruction::AND(Operand::Absolute(addr))),
        0x2e => Some(Instruction::ROL(Operand::Absolute(addr))),
        0x2f => Some(Instruction::Illegal(Box::new(Instruction::RLA(Operand::Absolute(addr))), Some(Operand::Absolute(addr)))),
        0x30 => Some(Instruction::BMI(Operand::Relative((lo as i8)))),
        0x31 => Some(Instruction::AND(Operand::IndirectY(lo))),
        0x33 => Some(Instruction::Illegal(Box::new(Instruction::RLA(Operand::IndirectY(lo))), Some(Operand::IndirectY(lo)))),
        0x34 => Some(Instruction::Illegal(Box::new(Instruction::NOP), Some(Operand::ZeroPageX(lo)))),
        0x35 => Some(Instruction::AND(Operand::ZeroPageX(lo))),
        0x36 => Some(Instruction::ROL(Operand::ZeroPageX(lo))),
        0x37 => Some(Instruction::Illegal(Box::new(Instruction::RLA(Operand::ZeroPageX(lo))), Some(Operand::ZeroPageX(lo)))),
        0x38 => Some(Instruction::SEC),
        0x39 => Some(Instruction::AND(Operand::AbsoluteY(addr))),
        0x3a => Some(Instruction::Illegal(Box::new(Instruction::NOP), None)),
        0x3b => Some(Instruction::Illegal(Box::new(Instruction::RLA(Operand::AbsoluteY(addr))), Some(Operand::AbsoluteY(addr)))),
        0x3c => Some(Instruction::Illegal(Box::new(Instruction::NOP), Some(Operand::AbsoluteX(addr)))),
        0x3d => Some(Instruction::AND(Operand::AbsoluteX(addr))),
        0x3e => Some(Instruction::ROL(Operand::AbsoluteX(addr))),
        0x3f => Some(Instruction::Illegal(Box::new(Instruction::RLA(Operand::AbsoluteX(addr))), Some(Operand::AbsoluteX(addr)))),
        0x40 => Some(Instruction::RTI),
        0x41 => Some(Instruction::EOR(Operand::IndirectX(lo))),
        0x43 => Some(Instruction::Illegal(Box::new(Instruction::SRE(Operand::IndirectX(lo))), Some(Operand::IndirectX(lo)))),
        0x44 => Some(Instruction::Illegal(Box::new(Instruction::NOP), Some(Operand::ZeroPage(lo)))),
        0x45 => Some(Instruction::EOR(Operand::ZeroPage(lo))),
        0x46 => Some(Instruction::LSR(Operand::ZeroPage(lo))),
        0x47 => Some(Instruction::Illegal(Box::new(Instruction::SRE(Operand::ZeroPage(lo))), Some(Operand::ZeroPage(lo)))),
        0x48 => Some(Instruction::PHA),
        0x49 => Some(Instruction::EOR(Operand::Immediate(lo))),
        0x4a => Some(Instruction::LSR(Operand::Accumulator)),
        0x4c => Some(Instruction::JMP(Operand::Absolute(addr))),
        0x4d => Some(Instruction::EOR(Operand::Absolute(addr))),
        0x4e => Some(Instruction::LSR(Operand::Absolute(addr))),
        0x4f => Some(Instruction::Illegal(Box::new(Instruction::SRE(Operand::Absolute(addr))), Some(Operand::Absolute(addr)))),
        0x50 => Some(Instruction::BVC(Operand::Relative((lo as i8)))),
        0x51 => Some(Instruction::EOR(Operand::IndirectY(lo))),
        0x53 => Some(Instruction::Illegal(Box::new(Instruction::SRE(Operand::IndirectY(lo))), Some(Operand::IndirectY(lo)))),
        0x54 => Some(Instruction::Illegal(Box::new(Instruction::NOP), Some(Operand::ZeroPageX(lo)))),
        0x55 => Some(Instruction::EOR(Operand::ZeroPageX(lo))),
        0x56 => Some(Instruction::LSR(Operand::ZeroPageX(lo))),
        0x57 => Some(Instruction::Illegal(Box::new(Instruction::SRE(Operand::ZeroPageX(lo))), Some(Operand::ZeroPageX(lo)))),
        0x58 => Some(Instruction::CLI),
        0x59 => Some(Instruction::EOR(Operand::AbsoluteY(addr))),
        0x5a => Some(Instruction::Illegal(Box::new(Instruction::NOP), None)),
        0x5b => Some(Instruction::Illegal(Box::new(Instruction::SRE(Operand::AbsoluteY(addr))), Some(Operand::AbsoluteY(addr)))),
        0x5c => Some(Instruction::Illegal(Box::new(Instruction::NOP), Some(Operand::AbsoluteX(addr)))),
        0x5d => Some(Instruction::EOR(Operand::AbsoluteX(addr))),
        0x5e => Some(Instruction::LSR(Operand::AbsoluteX(addr))),
        0x5f => Some(Instruction::Illegal(Box::new(Instruction::SRE(Operand::AbsoluteX(addr))), Some(Operand::AbsoluteX(addr)))),
        0x60 => Some(Instruction::RTS),
        0x61 => Some(Instruction::ADC(Operand::IndirectX(lo))),
        0x63 => Some(Instruction::Illegal(Box::new(Instruction::RRA(Operand::IndirectX(lo))), Some(Operand::IndirectX(lo)))),
        0x64 => Some(Instruction::Illegal(Box::new(Instruction::NOP), Some(Operand::ZeroPage(lo)))),
        0x65 => Some(Instruction::ADC(Operand::ZeroPage(lo))),
        0x66 => Some(Instruction::ROR(Operand::ZeroPage(lo))),
        0x67 => Some(Instruction::Illegal(Box::new(Instruction::RRA(Operand::ZeroPage(lo))), Some(Operand::ZeroPage(lo)))),
        0x68 => Some(Instruction::PLA),
        0x69 => Some(Instruction::ADC(Operand::Immediate(lo))),
        0x6a => Some(Instruction::ROR(Operand::Accumulator)),
        0x6c => Some(Instruction::JMP(Operand::Indirect(addr))),
        0x6d => Some(Instruction::ADC(Operand::Absolute(addr))),
        0x6e => Some(Instruction::ROR(Operand::Absolute(addr))),
        0x6f => Some(Instruction::Illegal(Box::new(Instruction::RRA(Operand::Absolute(addr))), Some(Operand::Absolute(addr)))),
        0x70 => Some(Instruction::BVS(Operand::Relative((lo as i8)))),
        0x71 => Some(Instruction::ADC(Operand::IndirectY(lo))),
        0x73 => Some(Instruction::Illegal(Box::new(Instruction::RRA(Operand::IndirectY(lo))), Some(Operand::IndirectY(lo)))),
        0x74 => Some(Instruction::Illegal(Box::new(Instruction::NOP), Some(Operand::ZeroPageX(lo)))),
        0x75 => Some(Instruction::ADC(Operand::ZeroPageX(lo))),
        0x76 => Some(Instruction::ROR(Operand::ZeroPageX(lo))),
        0x77 => Some(Instruction::Illegal(Box::new(Instruction::RRA(Operand::ZeroPageX(lo))), Some(Operand::ZeroPageX(lo)))),
        0x78 => Some(Instruction::SEI),
        0x79 => Some(Instruction::ADC(Operand::AbsoluteY(addr))),
        0x7a => Some(Instruction::Illegal(Box::new(Instruction::NOP), None)),
        0x7b => Some(Instruction::Illegal(Box::new(Instruction::RRA(Operand::AbsoluteY(addr))), Some(Operand::AbsoluteY(addr)))),
        0x7c => Some(Instruction::Illegal(Box::new(Instruction::NOP), Some(Operand::AbsoluteX(addr)))),
        0x7d => Some(Instruction::ADC(Operand::AbsoluteX(addr))),
        0x7e => Some(Instruction::ROR(Operand::AbsoluteX(addr))),
        0x7f => Some(Instruction::Illegal(Box::new(Instruction::RRA(Operand::AbsoluteX(addr))), Some(Operand::AbsoluteX(addr)))),
        0x80 => Some(Instruction::Illegal(Box::new(Instruction::NOP), Some(Operand::Immediate(lo)))),
        0x81 => Some(Instruction::STA(Operand::IndirectX(lo))),
        0x83 => Some(Instruction::Illegal(Box::new(Instruction::SAX(Operand::IndirectX(lo))), Some(Operand::IndirectX(lo)))),
        0x84 => Some(Instruction::STY(Operand::ZeroPage(lo))),
        0x85 => Some(Instruction::STA(Operand::ZeroPage(lo))),
        0x86 => Some(Instruction::STX(Operand::ZeroPage(lo))),
        0x87 => Some(Instruction::Illegal(Box::new(Instruction::SAX(Operand::ZeroPage(lo))), Some(Operand::ZeroPage(lo)))),
        0x88 => Some(Instruction::DEY),
        0x8a => Some(Instruction::TXA),
        0x8c => Some(Instruction::STY(Operand::Absolute(addr))),
        0x8d => Some(Instruction::STA(Operand::Absolute(addr))),
        0x8e => Some(Instruction::STX(Operand::Absolute(addr))),
        0x8f => Some(Instruction::Illegal(Box::new(Instruction::SAX(Operand::Absolute(addr))), Some(Operand::Absolute(addr)))),
        0x90 => Some(Instruction::BCC(Operand::Relative((lo as i8)))),
        0x91 => Some(Instruction::STA(Operand::IndirectY(lo))),
        0x94 => Some(Instruction::STY(Operand::ZeroPageX(lo))),
        0x95 => Some(Instruction::STA(Operand::ZeroPageX(lo))),
        0x96 => Some(Instruction::STX(Operand::ZeroPageY(lo))),
        0x97 => Some(Instruction::Illegal(Box::new(Instruction::SAX(Operand::ZeroPageY(lo))), Some(Operand::ZeroPageY(lo)))),
        0x98 => Some(Instruction::TYA),
        0x99 => Some(Instruction::STA(Operand::AbsoluteY(addr))),
        0x9a => Some(Instruction::TXS),
        0x9d => Some(Instruction::STA(Operand::AbsoluteX(addr))),
        0xa0 => Some(Instruction::LDY(Operand::Immediate(lo))),
        0xa1 => Some(Instruction::LDA(Operand::IndirectX(lo))),
        0xa2 => Some(Instruction::LDX(Operand::Immediate(lo))),
        0xa3 => Some(Instruction::Illegal(Box::new(Instruction::LAX(Operand::IndirectX(lo))), Some(Operand::IndirectX(lo)))),
        0xa4 => Some(Instruction::LDY(Operand::ZeroPage(lo))),
        0xa5 => Some(Instruction::LDA(Operand::ZeroPage(lo))),
        0xa6 => Some(Instruction::LDX(Operand::ZeroPage(lo))),
        0xa7 => Some(Instruction::Illegal(Box::new(Instruction::LAX(Operand::ZeroPage(lo))), Some(Operand::ZeroPage(lo)))),
        0xa8 => Some(Instruction::TAY),
        0xa9 => Some(Instruction::LDA(Operand::Immediate(lo))),
        0xaa => Some(Instruction::TAX),
        0xac => Some(Instruction::LDY(Operand::Absolute(addr))),
        0xad => Some(Instruction::LDA(Operand::Absolute(addr))),
        0xae => Some(Instruction::LDX(Operand::Absolute(addr))),
        0xaf => Some(Instruction::Illegal(Box::new(Instruction::LAX(Operand::Absolute(addr))), Some(Operand::Absolute(addr)))),
        0xb0 => Some(Instruction::BCS(Operand::Relative((lo as i8)))),
        0xb1 => Some(Instruction::LDA(Operand::IndirectY(lo))),
        0xb3 => Some(Instruction::Illegal(Box::new(Instruction::LAX(Operand::IndirectY(lo))), Some(Operand::IndirectY(lo)))),
        0xb4 => Some(Instruction::LDY(Operand::ZeroPageX(lo))),
        0xb5 => Some(Instruction::LDA(Operand::ZeroPageX(lo))),
        0xb6 => Some(Instruction::LDX(Operand::ZeroPageY(lo))),
        0xb7 => Some(Instruction::Illegal(Box::new(Instruction::LAX(Operand::ZeroPageY(lo))), Some(Operand::ZeroPageY(lo)))),
        0xb8 => Some(Instruction::CLV),
        0xb9 => Some(Instruction::LDA(Operand::AbsoluteY(addr))),
        0xba => Some(Instruction::TSX),
        0xbc => Some(Instruction::LDY(Operand::AbsoluteX(addr))),
        0xbd => Some(Instruction::LDA(Operand::AbsoluteX(addr))),
        0xbe => Some(Instruction::LDX(Operand::AbsoluteY(addr))),
        0xbf => Some(Instruction::Illegal(Box::new(Instruction::LAX(Operand::AbsoluteY(addr))), Some(Operand::AbsoluteY(addr)))),
        0xc0 => Some(Instruction::CPY(Operand::Immediate(lo))),
        0xc1 => Some(Instruction::CMP(Operand::IndirectX(lo))),
        0xc3 => Some(Instruction::Illegal(Box::new(Instruction::DCP(Operand::IndirectX(lo))), Some(Operand::IndirectX(lo)))),
        0xc4 => Some(Instruction::CPY(Operand::ZeroPage(lo))),
        0xc5 => Some(Instruction::CMP(Operand::ZeroPage(lo))),
        0xc6 => Some(Instruction::DEC(Operand::ZeroPage(lo))),
        0xc7 => Some(Instruction::Illegal(Box::new(Instruction::DCP(Operand::ZeroPage(lo))), Some(Operand::ZeroPage(lo)))),
        0xc8 => Some(Instruction::INY),
        0xc9 => Some(Instruction::CMP(Operand::Immediate(lo))),
        0xca => Some(Instruction::DEX),
        0xcc => Some(Instruction::CPY(Operand::Absolute(addr))),
        0xcd => Some(Instruction::CMP(Operand::Absolute(addr))),
        0xce => Some(Instruction::DEC(Operand::Absolute(addr))),
        0xcf => Some(Instruction::Illegal(Box::new(Instruction::DCP(Operand::Absolute(addr))), Some(Operand::Absolute(addr)))),
        0xd0 => Some(Instruction::BNE(Operand::Relative((lo as i8)))),
        0xd1 => Some(Instruction::CMP(Operand::IndirectY(lo))),
        0xd3 => Some(Instruction::Illegal(Box::new(Instruction::DCP(Operand::IndirectY(lo))), Some(Operand::IndirectY(lo)))),
        0xd4 => Some(Instruction::Illegal(Box::new(Instruction::NOP), Some(Operand::ZeroPageX(lo)))),
        0xd5 => Some(Instruction::CMP(Operand::ZeroPageX(lo))),
        0xd6 => Some(Instruction::DEC(Operand::ZeroPageX(lo))),
        0xd7 => Some(Instruction::Illegal(Box::new(Instruction::DCP(Operand::ZeroPageX(lo))), Some(Operand::ZeroPageX(lo)))),
        0xd8 => Some(Instruction::CLD),
        0xd9 => Some(Instruction::CMP(Operand::AbsoluteY(addr))),
        0xda => Some(Instruction::Illegal(Box::new(Instruction::NOP), None)),
        0xdb => Some(Instruction::Illegal(Box::new(Instruction::DCP(Operand::AbsoluteY(addr))), Some(Operand::AbsoluteY(addr)))),
        0xdc => Some(Instruction::Illegal(Box::new(Instruction::NOP), Some(Operand::AbsoluteX(addr)))),
        0xdd => Some(Instruction::CMP(Operand::AbsoluteX(addr))),
        0xde => Some(Instruction::DEC(Operand::AbsoluteX(addr))),
        0xdf => Some(Instruction::Illegal(Box::new(Instruction::DCP(Operand::AbsoluteX(addr))), Some(Operand::AbsoluteX(addr)))),
        0xe0 => Some(Instruction::CPX(Operand::Immediate(lo))),
        0xe1 => Some(Instruction::SBC(Operand::IndirectX(lo))),
        0xe3 => Some(Instruction::Illegal(Box::new(Instruction::ISB(Operand::IndirectX(lo))), Some(Operand::IndirectX(lo)))),
        0xe4 => Some(Instruction::CPX(Operand::ZeroPage(lo))),
        0xe5 => Some(Instruction::SBC(Operand::ZeroPage(lo))),
        0xe6 => Some(Instruction::INC(Operand::ZeroPage(lo))),
        0xe7 => Some(Instruction::Illegal(Box::new(Instruction::ISB(Operand::ZeroPage(lo))), Some(Operand::ZeroPage(lo)))),
        0xe8 => Some(Instruction::INX),
        0xe9 => Some(Instruction::SBC(Operand::Immediate(lo))),
        0xea => Some(Instruction::NOP),
        0xeb => Some(Instruction::Illegal(Box::new(Instruction::SBC(Operand::Immediate(lo))), Some(Operand::Immediate(lo)))),
        0xec => Some(Instruction::CPX(Operand::Absolute(addr))),
        0xed => Some(Instruction::SBC(Operand::Absolute(addr))),
        0xee => Some(Instruction::INC(Operand::Absolute(addr))),
        0xef => Some(Instruction::Illegal(Box::new(Instruction::ISB(Operand::Absolute(addr))), Some(Operand::Absolute(addr)))),
        0xf0 => Some(Instruction::BEQ(Operand::Relative((lo as i8)))),
        0xf1 => Some(Instruction::SBC(Operand::IndirectY(lo))),
        0xf3 => Some(Instruction::Illegal(Box::new(Instruction::ISB(Operand::IndirectY(lo))), Some(Operand::IndirectY(lo)))),
        0xf4 => Some(Instruction::Illegal(Box::new(Instruction::NOP), Some(Operand::ZeroPageX(lo)))),
        0xf5 => Some(Instruction::SBC(Operand::ZeroPageX(lo))),
        0xf6 => Some(Instruction::INC(Operand::ZeroPageX(lo))),
        0xf7 => Some(Instruction::Illegal(Box::new(Instruction::ISB(Operand::ZeroPageX(lo))), Some(Operand::ZeroPageX(lo)))),
        0xf8 => Some(Instruction::SED),
        0xf9 => Some(Instruction::SBC(Operand::AbsoluteY(addr))),
        0xfa => Some(Instruction::Illegal(Box::new(Instruction::NOP), None)),
        0xfb => Some(Instruction::Illegal(Box::new(Instruction::ISB(Operand::AbsoluteY(addr))), Some(Operand::AbsoluteY(addr)))),
        0xfc => Some(Instruction::Illegal(Box::new(Instruction::NOP), Some(Operand::AbsoluteX(addr)))),
        0xfd => Some(Instruction::SBC(Operand::AbsoluteX(addr))),
        0xfe => Some(Instruction::INC(Operand::AbsoluteX(addr))),
        0xff => Some(Instruction::Illegal(Box::new(Instruction::ISB(Operand::AbsoluteX(addr))), Some(Operand::AbsoluteX(addr)))),
        _ => None,
    }
}

/// Decodes `opcode` and its operand bytes into an instruction.
pub fn decode(opcode: u8, lo: u8, hi: u8) -> (r: Option<Instruction>)
    ensures
        r == decode_spec(opcode, lo, hi),
{
    let addr = make_word(lo, hi);
    match opcode {
        0x00 => Some(Instruction::BRK),
        0x01 => Some(Instruction::ORA(Operand::IndirectX(lo))),
        0x03 => Some(Instruction::Illegal(Box::new(Instruction::SLO(Operand::IndirectX(lo))), Some(Operand::IndirectX(lo)))),
        0x04 => Some(Instruction::Illegal(Box::new(Instruction::NOP), Some(Operand::ZeroPage(lo)))),
        0x05 => Some(Instruction::ORA(Operand::ZeroPage(lo))),
        0x06 => Some(Instruction::ASL(Operand::ZeroPage(lo))),
        0x07 => Some(Instruction::Illegal(Box::new(Instruction::SLO(Operand::ZeroPage(lo))), Some(Operand::ZeroPage(lo)))),
        0x08 => Some(Instruction::PHP),
        0x09 => Some(Instruction::ORA(Operand::Immediate(lo))),
        0x0a => Some(Instruction::ASL(Operand::Accumulator)),
        0x0c => Some(Instruction::Illegal(Box::new(Instruction::NOP), Some(Operand::Absolute(addr)))),
        0x0d => Some(Instruction::ORA(Operand::Absolute(addr))),
        0x0e => Some(Instruction::ASL(Operand::Absolute(addr))),
        0x0f => Some(Instruction::Illegal(Box::new(Instruction::SLO(Operand::Absolute(addr))), Some(Operand::Absolute(addr)))),
        0x10 => Some(Instruction::BPL(Operand::Relative((lo as i8)))),
        0x11 => Some(Instruction::ORA(Operand::IndirectY(lo))),
        0x13 => Some(Instruction::Illegal(Box::new(Instruction::SLO(Operand::IndirectY(lo))), Some(Operand::IndirectY(lo)))),
        0x14 => Some(Instruction::Illegal(Box::new(Instruction::NOP), Some(Operand::ZeroPageX(lo)))),
        0x15 => Some(Instruction::ORA(Operand::ZeroPageX(lo))),
        0x16 => Some(Instruction::ASL(Operand::ZeroPageX(lo))),
        0x17 => Some(Instruction::Illegal(Box::new(Instruction::SLO(Operand::ZeroPageX(lo))), Some(Operand::ZeroPageX(lo)))),
        0x18 => Some(Instruction::CLC),
        0x19 => Some(Instruction::ORA(Operand::AbsoluteY(addr))),
        0x1a => Some(Instruction::Illegal(Box::new(Instruction::NOP), None)),
        0x1b => Some(Instruction::Illegal(Box::new(Instruction::SLO(Operand::AbsoluteY(addr))), Some(Operand::AbsoluteY(addr)))),
        0x1c => Some(Instruction::Illegal(Box::new(Instruction::NOP), Some(Operand::AbsoluteX(addr)))),
        0x1d => Some(Instruction::ORA(Operand::AbsoluteX(addr))),
        0x1e => Some(Instruction::ASL(Operand::AbsoluteX(addr))),
        0x1f => Some(Instruction::Illegal(Box::new(Instruction::SLO(Operand::AbsoluteX(addr))), Some(Operand::AbsoluteX(addr)))),
        0x20 => Some(Instruction::JSR(Operand::Absolute(addr))),
        0x21 => Some(Instruction::AND(Operand::IndirectX(lo))),
        0x23 => Some(Instruction::Illegal(Box::new(Instruction::RLA(Operand::IndirectX(lo))), Some(Operand::IndirectX(lo)))),
        0x24 => Some(Instruction::BIT(Operand::ZeroPage(lo))),
        0x25 => Some(Instruction::AND(Operand::ZeroPage(lo))),
        0x26 => Some(Instruction::ROL(Operand::ZeroPage(lo))),
        0x27 => Some(Instruction::Illegal(Box::new(Instruction::RLA(Operand::ZeroPage(lo))), Some(Operand::ZeroPage(lo)))),
        0x28 => Some(Instruction::PLP),
        0x29 => Some(Instruction::AND(Operand::Immediate(lo))),
        0x2a => Some(Instruction::ROL(Operand::Accumulator)),
        0x2c => Some(Instruction::BIT(Operand::Absolute(addr))),
        0x2d => Some(Instruction::AND(Operand::Absolute(addr))),
        0x2e => Some(Instruction::ROL(Operand::Absolute(addr))),
        0x2f => Some(Instruction::Illegal(Box::new(Instruction::RLA(Operand::Absolute(addr))), Some(Operand::Absolute(addr)))),
        0x30 => Some(Instruction::BMI(Operand::Relative((lo as i8)))),
        0x31 => Some(Instruction::AND(Operand::IndirectY(lo))),
        0x33 => Some(Instruction::Illegal(Box::new(Instruction::RLA(Operand::IndirectY(lo))), Some(Operand::IndirectY(lo)))),
        0x34 => Some(Instruction::Illegal(Box::new(Instruction::NOP), Some(Operand::ZeroPageX(lo)))),
        0x35 => Some(Instruction::AND(Operand::ZeroPageX(lo))),
        0x36 => Some(Instruction::ROL(Operand::ZeroPageX(lo))),
        0x37 => Some(Instruction::Illegal(Box::new(Instruction::RLA(Operand::ZeroPageX(lo))), Some(Operand::ZeroPageX(lo)))),
        0x38 => Some(Instruction::SEC),
        0x39 => Some(Instruction::AND(Operand::AbsoluteY(addr))),
        0x3a => Some(Instruction::Illegal(Box::new(Instruction::NOP), None)),
        0x3b => Some(Instruction::Illegal(Box::new(Instruction::RLA(Operand::AbsoluteY(addr))), Some(Operand::AbsoluteY(addr)))),
        0x3c => Some(Instruction::Illegal(Box::new(Instruction::NOP), Some(Operand::AbsoluteX(addr)))),
        0x3d => Some(Instruction::AND(Operand::AbsoluteX(addr))),
        0x3e => Some(Instruction::ROL(Operand::AbsoluteX(addr))),
        0x3f => Some(Instruction::Illegal(Box::new(Instruction::RLA(Operand::AbsoluteX(addr))), Some(Operand::AbsoluteX(addr)))),
        0x40 => Some(Instruction::RTI),
        0x41 => Some(Instruction::EOR(Operand::IndirectX(lo))),
        0x43 => Some(Instruction::Illegal(Box::new(Instruction::SRE(Operand::IndirectX(lo))), Some(Operand::IndirectX(lo)))),
        0x44 => Some(Instruction::Illegal(Box::new(Instruction::NOP), Some(Operand::ZeroPage(lo)))),
        0x45 => Some(Instruction::EOR(Operand::ZeroPage(lo))),
        0x46 => Some(Instruction::LSR(Operand::ZeroPage(lo))),
        0x47 => Some(Instruction::Illegal(Box::new(Instruction::SRE(Operand::ZeroPage(lo))), Some(Operand::ZeroPage(lo)))),
        0x48 => Some(Instruction::PHA),
        0x49 => Some(Instruction::EOR(Operand::Immediate(lo))),
        0x4a => Some(Instruction::LSR(Operand::Accumulator)),
        0x4c => Some(Instruction::JMP(Operand::Absolute(addr))),
        0x4d => Some(Instruction::EOR(Operand::Absolute(addr))),
        0x4e => Some(Instruction::LSR(Operand::Absolute(addr))),
        0x4f => Some(Instruction::Illegal(Box::new(Instruction::SRE(Operand::Absolute(addr))), Some(Operand::Absolute(addr)))),
        0x50 => Some(Instruction::BVC(Operand::Relative((lo as i8)))),
        0x51 => Some(Instruction::EOR(Operand::IndirectY(lo))),
        0x53 => Some(Instruction::Illegal(Box::new(Instruction::SRE(Operand::IndirectY(lo))), Some(Operand::IndirectY(lo)))),
        0x54 => Some(Instruction::Illegal(Box::new(Instruction::NOP), Some(Operand::ZeroPageX(lo)))),
        0x55 => Some(Instruction::EOR(Operand::ZeroPageX(lo))),
        0x56 => Some(Instruction::LSR(Operand::ZeroPageX(lo))),
        0x57 => Some(Instruction::Illegal(Box::new(Instruction::SRE(Operand::ZeroPageX(lo))), Some(Operand::ZeroPageX(lo)))),
        0x58 => Some(Instruction::CLI),
        0x59 => Some(Instruction::EOR(Operand::AbsoluteY(addr))),
        0x5a => Some(Instruction::Illegal(Box::new(Instruction::NOP), None)),
        0x5b => Some(Instruction::Illegal(Box::new(Instruction::SRE(Operand::AbsoluteY(addr))), Some(Operand::AbsoluteY(addr)))),
        0x5c => Some(Instruction::Illegal(Box::new(Instruction::NOP), Some(Operand::AbsoluteX(addr)))),
        0x5d => Some(Instruction::EOR(Operand::AbsoluteX(addr))),
        0x5e => Some(Instruction::LSR(Operand::AbsoluteX(addr))),
        0x5f => Some(Instruction::Illegal(Box::new(Instruction::SRE(Operand::AbsoluteX(addr))), Some(Operand::AbsoluteX(addr)))),
        0x60 => Some(Instruction::RTS),
        0x61 => Some(Instruction::ADC(Operand::IndirectX(lo))),
        0x63 => Some(Instruction::Illegal(Box::new(Instruction::RRA(Operand::IndirectX(lo))), Some(Operand::IndirectX(lo)))),
        0x64 => Some(Instruction::Illegal(Box::new(Instruction::NOP), Some(Operand::ZeroPage(lo)))),
        0x65 => Some(Instruction::ADC(Operand::ZeroPage(lo))),
        0x66 => Some(Instruction::ROR(Operand::ZeroPage(lo))),
        0x67 => Some(Instruction::Illegal(Box::new(Instruction::RRA(Operand::ZeroPage(lo))), Some(Operand::ZeroPage(lo)))),
        0x68 => Some(Instruction::PLA),
        0x69 => Some(Instruction::ADC(Operand::Immediate(lo))),
        0x6a => Some(Instruction::ROR(Operand::Accumulator)),
        0x6c => Some(Instruction::JMP(Operand::Indirect(addr))),
        0x6d => Some(Instruction::ADC(Operand::Absolute(addr))),
        0x6e => Some(Instruction::ROR(Operand::Absolute(addr))),
        0x6f => Some(Instruction::Illegal(Box::new(Instruction::RRA(Operand::Absolute(addr))), Some(Operand::Absolute(addr)))),
        0x70 => Some(Instruction::BVS(Operand::Relative((lo as i8)))),
        0x71 => Some(Instruction::ADC(Operand::IndirectY(lo))),
        0x73 => Some(Instruction::Illegal(Box::new(Instruction::RRA(Operand::IndirectY(lo))), Some(Operand::IndirectY(lo)))),
        0x74 => Some(Instruction::Illegal(Box::new(Instruction::NOP), Some(Operand::ZeroPageX(lo)))),
        0x75 => Some(Instruction::ADC(Operand::ZeroPageX(lo))),
        0x76 => Some(Instruction::ROR(Operand::ZeroPageX(lo))),
        0x77 => Some(Instruction::Illegal(Box::new(Instruction::RRA(Operand::ZeroPageX(lo))), Some(Operand::ZeroPageX(lo)))),
        0x78 => Some(Instruction::SEI),
        0x79 => Some(Instruction::ADC(Operand::AbsoluteY(addr))),
        0x7a => Some(Instruction::Illegal(Box::new(Instruction::NOP), None)),
        0x7b => Some(Instruction::Illegal(Box::new(Instruction::RRA(Operand::AbsoluteY(addr))), Some(Operand::AbsoluteY(addr)))),
        0x7c => Some(Instruction::Illegal(Box::new(Instruction::NOP), Some(Operand::AbsoluteX(addr)))),
        0x7d => Some(Instruction::ADC(Operand::AbsoluteX(addr))),
        0x7e => Some(Instruction::ROR(Operand::AbsoluteX(addr))),
        0x7f => Some(Instruction::Illegal(Box::new(Instruction::RRA(Operand::AbsoluteX(addr))), Some(Operand::AbsoluteX(addr)))),
        0x80 => Some(Instruction::Illegal(Box::new(Instruction::NOP), Some(Operand::Immediate(lo)))),
        0x81 => Some(Instruction::STA(Operand::IndirectX(lo))),
        0x83 => Some(Instruction::Illegal(Box::new(Instruction::SAX(Operand::IndirectX(lo))), Some(Operand::IndirectX(lo)))),
        0x84 => Some(Instruction::STY(Operand::ZeroPage(lo))),
        0x85 => Some(Instruction::STA(Operand::ZeroPage(lo))),
        0x86 => Some(Instruction::STX(Operand::ZeroPage(lo))),
        0x87 => Some(Instruction::Illegal(Box::new(Instruction::SAX(Operand::ZeroPage(lo))), Some(Operand::ZeroPage(lo)))),
        0x88 => Some(Instruction::DEY),
        0x8a => Some(Instruction::TXA),
        0x8c => Some(Instruction::STY(Operand::Absolute(addr))),
        0x8d => Some(Instruction::STA(Operand::Absolute(addr))),
        0x8e => Some(Instruction::STX(Operand::Absolute(addr))),
        0x8f => Some(Instruction::Illegal(Box::new(Instruction::SAX(Operand::Absolute(addr))), Some(Operand::Absolute(addr)))),
        0x90 => Some(Instruction::BCC(Operand::Relative((lo as i8)))),
        0x91 => Some(Instruction::STA(Operand::IndirectY(lo))),
        0x94 => Some(Instruction::STY(Operand::ZeroPageX(lo))),
        0x95 => Some(Instruction::STA(Operand::ZeroPageX(lo))),
        0x96 => Some(Instruction::STX(Operand::ZeroPageY(lo))),
        0x97 => Some(Instruction::Illegal(Box::new(Instruction::SAX(Operand::ZeroPageY(lo))), Some(Operand::ZeroPageY(lo)))),
        0x98 => Some(Instruction::TYA),
        0x99 => Some(Instruction::STA(Operand::AbsoluteY(addr))),
        0x9a => Some(Instruction::TXS),
        0x9d => Some(Instruction::STA(Operand::AbsoluteX(addr))),
        0xa0 => Some(Instruction::LDY(Operand::Immediate(lo))),
        0xa1 => Some(Instruction::LDA(Operand::IndirectX(lo))),
        0xa2 => Some(Instruction::LDX(Operand::Immediate(lo))),
        0xa3 => Some(Instruction::Illegal(Box::new(Instruction::LAX(Operand::IndirectX(lo))), Some(Operand::IndirectX(lo)))),
        0xa4 => Some(Instruction::LDY(Operand::ZeroPage(lo))),
        0xa5 => Some(Instruction::LDA(Operand::ZeroPage(lo))),
        0xa6 => Some(Instruction::LDX(Operand::ZeroPage(lo))),
        0xa7 => Some(Instruction::Illegal(Box::new(Instruction::LAX(Operand::ZeroPage(lo))), Some(Operand::ZeroPage(lo)))),
        0xa8 => Some(Instruction::TAY),
        0xa9 => Some(Instruction::LDA(Operand::Immediate(lo))),
        0xaa => Some(Instruction::TAX),
        0xac => Some(Instruction::LDY(Operand::Absolute(addr))),
        0xad => Some(Instruction::LDA(Operand::Absolute(addr))),
        0xae => Some(Instruction::LDX(Operand::Absolute(addr))),
        0xaf => Some(Instruction::Illegal(Box::new(Instruction::LAX(Operand::Absolute(addr))), Some(Operand::Absolute(addr)))),
        0xb0 => Some(Instruction::BCS(Operand::Relative((lo as i8)))),
        0xb1 => Some(Instruction::LDA(Operand::IndirectY(lo))),
        0xb3 => Some(Instruction::Illegal(Box::new(Instruction::LAX(Operand::IndirectY(lo))), Some(Operand::IndirectY(lo)))),
        0xb4 => Some(Instruction::LDY(Operand::ZeroPageX(lo))),
        0xb5 => Some(Instruction::LDA(Operand::ZeroPageX(lo))),
        0xb6 => Some(Instruction::LDX(Operand::ZeroPageY(lo))),
        0xb7 => Some(Instruction::Illegal(Box::new(Instruction::LAX(Operand::ZeroPageY(lo))), Some(Operand::ZeroPageY(lo)))),
        0xb8 => Some(Instruction::CLV),
        0xb9 => Some(Instruction::LDA(Operand::AbsoluteY(addr))),
        0xba => Some(Instruction::TSX),
        0xbc => Some(Instruction::LDY(Operand::AbsoluteX(addr))),
        0xbd => Some(Instruction::LDA(Operand::AbsoluteX(addr))),
        0xbe => Some(Instruction::LDX(Operand::AbsoluteY(addr))),
        0xbf => Some(Instruction::Illegal(Box::new(Instruction::LAX(Operand::AbsoluteY(addr))), Some(Operand::AbsoluteY(addr)))),
        0xc0 => Some(Instruction::CPY(Operand::Immediate(lo))),
        0xc1 => Some(Instruction::CMP(Operand::IndirectX(lo))),
        0xc3 => Some(Instruction::Illegal(Box::new(Instruction::DCP(Operand::IndirectX(lo))), Some(Operand::IndirectX(lo)))),
        0xc4 => Some(Instruction::CPY(Operand::ZeroPage(lo))),
        0xc5 => Some(Instruction::CMP(Operand::ZeroPage(lo))),
        0xc6 => Some(Instruction::DEC(Operand::ZeroPage(lo))),
        0xc7 => Some(Instruction::Illegal(Box::new(Instruction::DCP(Operand::ZeroPage(lo))), Some(Operand::ZeroPage(lo)))),
        0xc8 => Some(Instruction::INY),
        0xc9 => Some(Instruction::CMP(Operand::Immediate(lo))),
        0xca => Some(Instruction::DEX),
        0xcc => Some(Instruction::CPY(Operand::Absolute(addr))),
        0xcd => Some(Instruction::CMP(Operand::Absolute(addr))),
        0xce => Some(Instruction::DEC(Operand::Absolute(addr))),
        0xcf => Some(Instruction::Illegal(Box::new(Instruction::DCP(Operand::Absolute(addr))), Some(Operand::Absolute(addr)))),
        0xd0 => Some(Instruction::BNE(Operand::Relative((lo as i8)))),
        0xd1 => Some(Instruction::CMP(Operand::IndirectY(lo))),
        0xd3 => Some(Instruction::Illegal(Box::new(Instruction::DCP(Operand::IndirectY(lo))), Some(Operand::IndirectY(lo)))),
        0xd4 => Some(Instruction::Illegal(Box::new(Instruction::NOP), Some(Operand::ZeroPageX(lo)))),
        0xd5 => Some(Instruction::CMP(Operand::ZeroPageX(lo))),
        0xd6 => Some(Instruction::DEC(Operand::ZeroPageX(lo))),
        0xd7 => Some(Instruction::Illegal(Box::new(Instruction::DCP(Operand::ZeroPageX(lo))), Some(Operand::ZeroPageX(lo)))),
        0xd8 => Some(Instruction::CLD),
        0xd9 => Some(Instruction::CMP(Operand::AbsoluteY(addr))),
        0xda => Some(Instruction::Illegal(Box::new(Instruction::NOP), None)),
        0xdb => Some(Instruction::Illegal(Box::new(Instruction::DCP(Operand::AbsoluteY(addr))), Some(Operand::AbsoluteY(addr)))),
        0xdc => Some(Instruction::Illegal(Box::new(Instruction::NOP), Some(Operand::AbsoluteX(addr)))),
        0xdd => Some(Instruction::CMP(Operand::AbsoluteX(addr))),
        0xde => Some(Instruction::DEC(Operand::AbsoluteX(addr))),
        0xdf => Some(Instruction::Illegal(Box::new(Instruction::DCP(Operand::AbsoluteX(addr))), Some(Operand::AbsoluteX(addr)))),
        0xe0 => Some(Instruction::CPX(Operand::Immediate(lo))),
        0xe1 => Some(Instruction::SBC(Operand::IndirectX(lo))),
        0xe3 => Some(Instruction::Illegal(Box::new(Instruction::ISB(Operand::IndirectX(lo))), Some(Operand::IndirectX(lo)))),
        0xe4 => Some(Instruction::CPX(Operand::ZeroPage(lo))),
        0xe5 => Some(Instruction::SBC(Operand::ZeroPage(lo))),
        0xe6 => Some(Instruction::INC(Operand::ZeroPage(lo))),
        0xe7 => Some(Instruction::Illegal(Box::new(Instruction::ISB(Operand::ZeroPage(lo))), Some(Operand::ZeroPage(lo)))),
        0xe8 => Some(Instruction::INX),
        0xe9 => Some(Instruction::SBC(Operand::Immediate(lo))),
        0xea => Some(Instruction::NOP),
        0xeb => Some(Instruction::Illegal(Box::new(Instruction::SBC(Operand::Immediate(lo))), Some(Operand::Immediate(lo)))),
        0xec => Some(Instruction::CPX(Operand::Absolute(addr))),
        0xed => Some(Instruction::SBC(Operand::Absolute(addr))),
        0xee => Some(Instruction::INC(Operand::Absolute(addr))),
        0xef => Some(Instruction::Illegal(Box::new(Instruction::ISB(Operand::Absolute(addr))), Some(Operand::Absolute(addr)))),
        0xf0 => Some(Instruction::BEQ(Operand::Relative((lo as i8)))),
        0xf1 => Some(Instruction::SBC(Operand::IndirectY(lo))),
        0xf3 => Some(Instruction::Illegal(Box::new(Instruction::ISB(Operand::IndirectY(lo))), Some(Operand::IndirectY(lo)))),
        0xf4 => Some(Instruction::Illegal(Box::new(Instruction::NOP), Some(Operand::ZeroPageX(lo)))),
        0xf5 => Some(Instruction::SBC(Operand::ZeroPageX(lo))),
        0xf6 => Some(Instruction::INC(Operand::ZeroPageX(lo))),
        0xf7 => Some(Instruction::Illegal(Box::new(Instruction::ISB(Operand::ZeroPageX(lo))), Some(Operand::ZeroPageX(lo)))),
        0xf8 => Some(Instruction::SED),
        0xf9 => Some(Instruction::SBC(Operand::AbsoluteY(addr))),
        0xfa => Some(Instruction::Illegal(Box::new(Instruction::NOP), None)),
        0xfb => Some(Instruction::Illegal(Box::new(Instruction::ISB(Operand::AbsoluteY(addr))), Some(Operand::AbsoluteY(addr)))),
        0xfc => Some(Instruction::Illegal(Box::new(Instruction::NOP), Some(Operand::AbsoluteX(addr)))),
        0xfd => Some(Instruction::SBC(Operand::AbsoluteX(addr))),
        0xfe => Some(Instruction::INC(Operand::AbsoluteX(addr))),
        0xff => Some(Instruction::Illegal(Box::new(Instruction::ISB(Operand::AbsoluteX(addr))), Some(Operand::AbsoluteX(addr)))),
        _ => None,
    }
}

} // verus!
