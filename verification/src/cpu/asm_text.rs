use vstd::prelude::*;

use super::instructions::{operand_spec, Instruction};
use super::operand::Operand;
use super::text::{pad_front, push_chars, push_padded_front, push_str, signed_dec, signed_dec_chars};

verus! {

/// The lower-case hexadecimal digit of `d` (below 16).
pub open spec fn lower_hex_char(d: nat) -> char {
    if d < 10 {
        (48 + d) as char
    } else {
        (87 + d) as char
    }
}

/// The lower-case hexadecimal digits of `n`, most significant first, without
/// leading zeros.
pub open spec fn lower_hex_digits(n: nat) -> Seq<char>
    decreases n,
{
    if n < 16 {
        seq![lower_hex_char(n)]
    } else {
        lower_hex_digits(n / 16).push(lower_hex_char(n % 16))
    }
}

/// `n` in lower-case hexadecimal with at least `width` digits.
pub open spec fn lower_hex(n: nat, width: nat) -> Seq<char> {
    pad_front(lower_hex_digits(n), width, '0')
}

fn lower_hex_char_exec(d: u64) -> (r: char)
    requires
        d < 16,
    ensures
        r == lower_hex_char(d as nat),
{
    match d {
        0 => '0',
        1 => '1',
        2 => '2',
        3 => '3',
        4 => '4',
        5 => '5',
        6 => '6',
        7 => '7',
        8 => '8',
        9 => '9',
        10 => 'a',
        11 => 'b',
        12 => 'c',
        13 => 'd',
        14 => 'e',
        _ => 'f',
    }
}

fn lower_hex_digits_exec(n: u64) -> (r: Vec<char>)
    ensures
        r@ == lower_hex_digits(n as nat),
    decreases n,
{
    if n < 16 {
        let mut v: Vec<char> = Vec::new();
        v.push(lower_hex_char_exec(n));
        assert(v@ =~= seq![lower_hex_char(n as nat)]);
        v
    } else {
        let mut v = lower_hex_digits_exec(n / 16);
        v.push(lower_hex_char_exec(n % 16));
        v
    }
}

/// Appends `n` in lower-case hexadecimal with at least `width` digits.
pub fn push_lower_hex(out: &mut String, n: u64, width: usize)
    ensures
        final(out)@ == old(out)@ + lower_hex(n as nat, width as nat),
{
    let d = lower_hex_digits_exec(n);
    push_padded_front(out, &d, width, '0');
}

/// An operand in assembler syntax, lower case: nothing for the accumulator,
/// `#$nn` for an immediate, `$nnnn` or `$nn` for an address with `,x` or `,y`
/// for an index, parentheses for an indirection, and a relative offset in
/// signed decimal.
pub open spec fn operand_asm_text(op: Operand) -> Seq<char> {
    match op {
        Operand::Accumulator => seq![],
        Operand::Immediate(v) => "#$"@ + lower_hex(v as nat, 2),
        Operand::Absolute(a) => "$"@ + lower_hex(a as nat, 4),
        Operand::AbsoluteX(a) => "$"@ + lower_hex(a as nat, 4) + ",x"@,
        Operand::AbsoluteY(a) => "$"@ + lower_hex(a as nat, 4) + ",y"@,
        Operand::ZeroPage(z) => "$"@ + lower_hex(z as nat, 2),
        Operand::ZeroPageX(z) => "$"@ + lower_hex(z as nat, 2) + ",x"@,
        Operand::ZeroPageY(z) => "$"@ + lower_hex(z as nat, 2) + ",y"@,
        Operand::Indirect(a) => "($"@ + lower_hex(a as nat, 4) + ")"@,
        Operand::IndirectX(z) => "($"@ + lower_hex(z as nat, 2) + ",x)"@,
        Operand::IndirectY(z) => "($"@ + lower_hex(z as nat, 2) + "),y"@,
        Operand::Relative(o) => signed_dec(o as int),
    }
}

impl Operand {
    /// The operand in assembler syntax, lower case.
    pub fn to_string(&self) -> (r: String)
        ensures
            r@ == operand_asm_text(*self),
    {
        let mut out = String::new();
        match self {
            Operand::Accumulator => {},
            Operand::Immediate(v) => {
                push_str(&mut out, "#$");
                push_lower_hex(&mut out, *v as u64, 2);
            },
            Operand::Absolute(a) => {
                push_str(&mut out, "$");
                push_lower_hex(&mut out, *a as u64, 4);
            },
            Operand::AbsoluteX(a) => {
                push_str(&mut out, "$");
                push_lower_hex(&mut out, *a as u64, 4);
                push_str(&mut out, ",x");
            },
            Operand::AbsoluteY(a) => {
                push_str(&mut out, "$");
                push_lower_hex(&mut out, *a as u64, 4);
                push_str(&mut out, ",y");
            },
            Operand::ZeroPage(z) => {
                push_str(&mut out, "$");
                push_lower_hex(&mut out, *z as u64, 2);
            },
            Operand::ZeroPageX(z) => {
                push_str(&mut out, "$");
                push_lower_hex(&mut out, *z as u64, 2);
                push_str(&mut out, ",x");
            },
            Operand::ZeroPageY(z) => {
                push_str(&mut out, "$");
                push_lower_hex(&mut out, *z as u64, 2);
                push_str(&mut out, ",y");
            },
            Operand::Indirect(a) => {
                push_str(&mut out, "($");
                push_lower_hex(&mut out, *a as u64, 4);
                push_str(&mut out, ")");
            },
            Operand::IndirectX(z) => {
                push_str(&mut out, "($");
                push_lower_hex(&mut out, *z as u64, 2);
                push_str(&mut out, ",x)");
            },
            Operand::IndirectY(z) => {
                push_str(&mut out, "($");
                push_lower_hex(&mut out, *z as u64, 2);
                push_str(&mut out, "),y");
            },
            Operand::Relative(o) => {
                let d = signed_dec_chars(*o as i64);
                push_chars(&mut out, &d);
            },
        }
        out
    }
}

/// The instruction's name in lower case; an unofficial opcode goes by the
/// instruction it wraps.
pub open spec fn lower_name_spec(i: Instruction) -> Seq<char>
    decreases i,
{
    match i {
        Instruction::ADC(_) => "adc"@,
        Instruction::AND(_) => "and"@,
        Instruction::ASL(_) => "asl"@,
        Instruction::BCC(_) => "bcc"@,
        Instruction::BCS(_) => "bcs"@,
        Instruction::BEQ(_) => "beq"@,
        Instruction::BIT(_) => "bit"@,
        Instruction::BMI(_) => "bmi"@,
        Instruction::BNE(_) => "bne"@,
        Instruction::BPL(_) => "bpl"@,
        Instruction::BRK => "brk"@,
        Instruction::BVC(_) => "bvc"@,
        Instruction::BVS(_) => "bvs"@,
        Instruction::CLC => "clc"@,
        Instruction::CLD => "cld"@,
        Instruction::CLI => "cli"@,
        Instruction::CLV => "clv"@,
        Instruction::CMP(_) => "cmp"@,
        Instruction::CPX(_) => "cpx"@,
        Instruction::CPY(_) => "cpy"@,
        Instruction::DEC(_) => "dec"@,
        Instruction::DEX => "dex"@,
        Instruction::DEY => "dey"@,
        Instruction::EOR(_) => "eor"@,
        Instruction::INC(_) => "inc"@,
        Instruction::INX => "inx"@,
        Instruction::INY => "iny"@,
        Instruction::JMP(_) => "jmp"@,
        Instruction::JSR(_) => "jsr"@,
        Instruction::LDA(_) => "lda"@,
        Instruction::LDX(_) => "ldx"@,
        Instruction::LDY(_) => "ldy"@,
        Instruction::LSR(_) => "lsr"@,
        Instruction::NOP => "nop"@,
        Instruction::ORA(_) => "ora"@,
        Instruction::PHA => "pha"@,
        Instruction::PHP => "php"@,
        Instruction::PLA => "pla"@,
        Instruction::PLP => "plp"@,
        Instruction::ROL(_) => "rol"@,
        Instruction::ROR(_) => "ror"@,
        Instruction::RTI => "rti"@,
        Instruction::RTS => "rts"@,
        Instruction::SBC(_) => "sbc"@,
        Instruction::SEC => "sec"@,
        Instruction::SED => "sed"@,
        Instruction::SEI => "sei"@,
        Instruction::STA(_) => "sta"@,
        Instruction::STX(_) => "stx"@,
        Instruction::STY(_) => "sty"@,
        Instruction::TAX => "tax"@,
        Instruction::TAY => "tay"@,
        Instruction::TSX => "tsx"@,
        Instruction::TXA => "txa"@,
        Instruction::TXS => "txs"@,
        Instruction::TYA => "tya"@,
        Instruction::DCP(_) => "dcp"@,
        Instruction::ISB(_) => "isb"@,
        Instruction::LAX(_) => "lax"@,
        Instruction::RLA(_) => "rla"@,
        Instruction::RRA(_) => "rra"@,
        Instruction::SAX(_) => "sax"@,
        Instruction::SLO(_) => "slo"@,
        Instruction::SRE(_) => "sre"@,
        Instruction::Illegal(inner, _) => lower_name_spec(*inner),
    }
}

/// An instruction in assembler syntax, lower case: its name, then a space and
/// its operand where it carries one.
pub open spec fn instruction_asm_text(i: Instruction) -> Seq<char> {
    match operand_spec(i) {
        Some(op) => lower_name_spec(i) + " "@ + operand_asm_text(op),
        None => lower_name_spec(i),
    }
}

impl Instruction {
    /// The instruction's name in lower case.
    pub fn lower_name(&self) -> (r: &'static str)
        ensures
            r@ == lower_name_spec(*self),
        decreases self,
    {
        match self {
            Instruction::ADC(_) => "adc",
            Instruction::AND(_) => "and",
            Instruction::ASL(_) => "asl",
            Instruction::BCC(_) => "bcc",
            Instruction::BCS(_) => "bcs",
            Instruction::BEQ(_) => "beq",
            Instruction::BIT(_) => "bit",
            Instruction::BMI(_) => "bmi",
            Instruction::BNE(_) => "bne",
            Instruction::BPL(_) => "bpl",
            Instruction::BRK => "brk",
            Instruction::BVC(_) => "bvc",
            Instruction::BVS(_) => "bvs",
            Instruction::CLC => "clc",
            Instruction::CLD => "cld",
            Instruction::CLI => "cli",
            Instruction::CLV => "clv",
            Instruction::CMP(_) => "cmp",
            Instruction::CPX(_) => "cpx",
            Instruction::CPY(_) => "cpy",
            Instruction::DEC(_) => "dec",
            Instruction::DEX => "dex",
            Instruction::DEY => "dey",
            Instruction::EOR(_) => "eor",
            Instruction::INC(_) => "inc",
            Instruction::INX => "inx",
            Instruction::INY => "iny",
            Instruction::JMP(_) => "jmp",
            Instruction::JSR(_) => "jsr",
            Instruction::LDA(_) => "lda",
            Instruction::LDX(_) => "ldx",
            Instruction::LDY(_) => "ldy",
            Instruction::LSR(_) => "lsr",
            Instruction::NOP => "nop",
            Instruction::ORA(_) => "ora",
            Instruction::PHA => "pha",
            Instruction::PHP => "php",
            Instruction::PLA => "pla",
            Instruction::PLP => "plp",
            Instruction::ROL(_) => "rol",
            Instruction::ROR(_) => "ror",
            Instruction::RTI => "rti",
            Instruction::RTS => "rts",
            Instruction::SBC(_) => "sbc",
            Instruction::SEC => "sec",
            Instruction::SED => "sed",
            Instruction::SEI => "sei",
            Instruction::STA(_) => "sta",
            Instruction::STX(_) => "stx",
            Instruction::STY(_) => "sty",
            Instruction::TAX => "tax",
            Instruction::TAY => "tay",
            Instruction::TSX => "tsx",
            Instruction::TXA => "txa",
            Instruction::TXS => "txs",
            Instruction::TYA => "tya",
            Instruction::DCP(_) => "dcp",
            Instruction::ISB(_) => "isb",
            Instruction::LAX(_) => "lax",
            Instruction::RLA(_) => "rla",
            Instruction::RRA(_) => "rra",
            Instruction::SAX(_) => "sax",
            Instruction::SLO(_) => "slo",
            Instruction::SRE(_) => "sre",
            Instruction::Illegal(inner, _) => inner.lower_name(),
        }
    }

    /// The instruction in assembler syntax, lower case.
    pub fn to_string(&self) -> (r: String)
        ensures
            r@ == instruction_asm_text(*self),
    {
        let mut out = String::new();
        push_str(&mut out, self.lower_name());
        match self.operand() {
            Some(op) => {
                push_str(&mut out, " ");
                let t = op.to_string();
                push_str(&mut out, t.as_str());
            },
            None => {},
        }
        out
    }
}

} // verus!
