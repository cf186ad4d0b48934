use vstd::prelude::*;

use crate::bus::{peek, read_spec, Bus};

use super::cpu::CPU;

verus! {

/// The 16-bit little-endian word made of the bytes `lo` and `hi`.
pub open spec fn word_spec(lo: u8, hi: u8) -> u16 {
    (hi as int * 256 + lo as int) as u16
}

/// Builds the 16-bit word whose low byte is `lo` and high byte is `hi`.
pub fn make_word(lo: u8, hi: u8) -> (r: u16)
    ensures
        r == word_spec(lo, hi),
        r as int == hi as int * 256 + lo as int,
{
    (hi as u16) * 256 + (lo as u16)
}

/// The operand of a 6502 instruction, by addressing mode.
#[derive(Debug, Clone, Copy, PartialEq, Eq, Structural)]
pub enum Operand {
    Accumulator,
    Immediate(u8),
    Absolute(u16),
    AbsoluteX(u16),
    AbsoluteY(u16),
    ZeroPage(u8),
    ZeroPageX(u8),
    ZeroPageY(u8),
    Indirect(u16),
    IndirectX(u8),
    IndirectY(u8),
    Relative(i8),
}

impl Operand {
    /// Whether the operand names a memory address.
    pub open spec fn is_address(self) -> bool {
        !(self is Accumulator || self is Immediate || self is Relative)
    }

    /// Whether the operand can be evaluated to a value.
    pub open spec fn is_readable(self) -> bool {
        !(self is Relative)
    }

    /// Whether a value can be stored through the operand.
    pub open spec fn is_writable(self) -> bool {
        self is Accumulator || self.is_address()
    }
}

/// The bytes that encode an operand after the opcode, low byte first.
pub open spec fn operand_bytes(op: Operand) -> Seq<u8> {
    match op {
        Operand::Accumulator => seq![],
        Operand::Immediate(v) => seq![v],
        Operand::Absolute(a) | Operand::AbsoluteX(a) | Operand::AbsoluteY(a) | Operand::Indirect(
            a,
        ) => seq![(a % 256) as u8, (a / 256) as u8],
        Operand::ZeroPage(z) | Operand::ZeroPageX(z) | Operand::ZeroPageY(z) => seq![z],
        Operand::IndirectX(z) | Operand::IndirectY(z) => seq![z],
        Operand::Relative(o) => seq![o as u8],
    }
}

/// Whether a 16-bit address moved to another 256-byte page.
pub open spec fn page_crossed(from: u16, to: u16) -> bool {
    from / 256 != to / 256
}

/// The address an operand names, whether computing it crossed a page, and the
/// bus after the pointer reads that indirect modes make.
pub open spec fn addr_spec<B: Bus>(op: Operand, cpu: CPU, bus: B::V) -> (u16, bool, B::V) {
    match op {
        Operand::ZeroPage(z) => (z as u16, false, bus),
        Operand::ZeroPageX(z) => (((cpu.x as int + z as int) % 256) as u16, false, bus),
        Operand::ZeroPageY(z) => (((cpu.y as int + z as int) % 256) as u16, false, bus),
        Operand::Absolute(a) => (a, false, bus),
        Operand::AbsoluteX(a) => {
            let n = ((a as int + cpu.x as int) % 65536) as u16;
            (n, page_crossed(a, n), bus)
        },
        Operand::AbsoluteY(a) => {
            let n = ((a as int + cpu.y as int) % 65536) as u16;
            (n, page_crossed(a, n), bus)
        },
        Operand::Indirect(a) => {
            let (lo, b1) = read_spec::<B>(bus, a);
            let hi_addr = ((a as int / 256) * 256 + (a as int % 256 + 1) % 256) as u16;
            let (hi, b2) = read_spec::<B>(b1, hi_addr);
            (word_spec(lo, hi), false, b2)
        },
        Operand::IndirectX(z) => {
            let loc = (cpu.x as int + z as int) % 256;
            let (lo, b1) = read_spec::<B>(bus, loc as u16);
            let (hi, b2) = read_spec::<B>(b1, ((loc + 1) % 256) as u16);
            (word_spec(lo, hi), false, b2)
        },
        Operand::IndirectY(z) => {
            let (lo, b1) = read_spec::<B>(bus, z as u16);
            let (hi, b2) = read_spec::<B>(b1, ((z as int + 1) % 256) as u16);
            let base = word_spec(lo, hi);
            let n = ((base as int + cpu.y as int) % 65536) as u16;
            (n, page_crossed(base, n), b2)
        },
        _ => (0, false, bus),
    }
}

/// `addr_spec` without side effects: the pointer reads only peek.
pub open spec fn addr_readonly_spec<B: Bus>(op: Operand, cpu: CPU, bus: B::V) -> (u16, bool) {
    match op {
        Operand::Indirect(a) => {
            let lo = peek::<B>(bus, a);
            let hi = peek::<B>(bus, ((a as int / 256) * 256 + (a as int % 256 + 1) % 256) as u16);
            (word_spec(lo, hi), false)
        },
        Operand::IndirectX(z) => {
            let loc = (cpu.x as int + z as int) % 256;
            let lo = peek::<B>(bus, loc as u16);
            let hi = peek::<B>(bus, ((loc + 1) % 256) as u16);
            (word_spec(lo, hi), false)
        },
        Operand::IndirectY(z) => {
            let lo = peek::<B>(bus, z as u16);
            let hi = peek::<B>(bus, ((z as int + 1) % 256) as u16);
            let base = word_spec(lo, hi);
            let n = ((base as int + cpu.y as int) % 65536) as u16;
            (n, page_crossed(base, n))
        },
        _ => {
            let r = addr_spec::<B>(op, cpu, bus);
            (r.0, r.1)
        },
    }
}

/// The value of an operand, whether addressing it crossed a page, and the bus
/// after the reads made.
pub open spec fn eval_spec<B: Bus>(op: Operand, cpu: CPU, bus: B::V) -> (u8, bool, B::V) {
    match op {
        Operand::Accumulator => (cpu.a, false, bus),
        Operand::Immediate(v) => (v, false, bus),
        _ => {
            let (addr, crossed, b1) = addr_spec::<B>(op, cpu, bus);
            let (v, b2) = read_spec::<B>(b1, addr);
            (v, crossed, b2)
        },
    }
}

/// `eval_spec` without side effects.
pub open spec fn eval_readonly_spec<B: Bus>(op: Operand, cpu: CPU, bus: B::V) -> (u8, bool) {
    match op {
        Operand::Accumulator => (cpu.a, false),
        Operand::Immediate(v) => (v, false),
        _ => {
            let (addr, crossed) = addr_readonly_spec::<B>(op, cpu, bus);
            (peek::<B>(bus, addr), crossed)
        },
    }
}

/// The address of the byte after `a` within its page.
fn next_in_page(a: u16) -> (r: u16)
    ensures
        r as int == (a as int / 256) * 256 + (a as int % 256 + 1) % 256,
{
    (a / 256) * 256 + ((a % 256 + 1) % 256)
}

impl Operand {
    /// The operand's encoded bytes.
    pub fn to_bytes(&self) -> (r: Vec<u8>)
        ensures
            r@ == operand_bytes(*self),
    {
        match self {
            Operand::Accumulator => Vec::new(),
            Operand::Immediate(value) => vec![*value],
            Operand::Absolute(addr) | Operand::AbsoluteX(addr) | Operand::AbsoluteY(addr)
            | Operand::Indirect(addr) => vec![(*addr % 256) as u8, (*addr / 256) as u8],
            Operand::ZeroPage(zp_addr) | Operand::ZeroPageX(zp_addr) | Operand::ZeroPageY(
                zp_addr,
            ) => vec![*zp_addr],
            Operand::IndirectX(offset) | Operand::IndirectY(offset) => vec![*offset],
            Operand::Relative(offset) => vec![*offset as u8],
        }
    }

    /// The address the operand names and whether a page was crossed; indirect
    /// modes read their pointer through the bus.
    pub fn get_addr<B: Bus>(&self, cpu: &CPU, bus: &mut B) -> (r: (u16, bool))
        requires
            self.is_address(),
        ensures
            (r.0, r.1, final(bus)@) == addr_spec::<B>(*self, *cpu, old(bus)@),
    {
        match self {
            Operand::ZeroPage(addr) => (*addr as u16, false),
            Operand::ZeroPageX(addr) => (((cpu.x as u16 + *addr as u16) % 256), false),
            Operand::ZeroPageY(addr) => (((cpu.y as u16 + *addr as u16) % 256), false),
            Operand::Absolute(addr) => (*addr, false),
            Operand::AbsoluteX(addr) => {
                let new_addr = ((*addr as u32 + cpu.x as u32) % 65536) as u16;
                (new_addr, new_addr / 256 != *addr / 256)
            },
            Operand::AbsoluteY(addr) => {
                let new_addr = ((*addr as u32 + cpu.y as u32) % 65536) as u16;
                (new_addr, new_addr / 256 != *addr / 256)
            },
            Operand::Indirect(addr) => {
                let low = bus.read(*addr);
                let high = bus.read(next_in_page(*addr));
                (make_word(low, high), false)
            },
            Operand::IndirectX(addr) => {
                let loc = (cpu.x as u16 + *addr as u16) % 256;
                let low = bus.read(loc);
                let high = bus.read((loc + 1) % 256);
                (make_word(low, high), false)
            },
            Operand::IndirectY(zp_addr) => {
                let low = bus.read(*zp_addr as u16);
                let high = bus.read((*zp_addr as u16 + 1) % 256);
                let addr = make_word(low, high);
                let new_addr = ((addr as u32 + cpu.y as u32) % 65536) as u16;
                (new_addr, new_addr / 256 != addr / 256)
            },
            _ => (0, false),
        }
    }

    /// `get_addr` without side effects on the bus.
    pub fn get_addr_readonly<B: Bus>(&self, cpu: &CPU, bus: &B) -> (r: (u16, bool))
        requires
            self.is_address(),
        ensures
            r == addr_readonly_spec::<B>(*self, *cpu, bus@),
    {
        match self {
            Operand::Indirect(addr) => {
                let low = bus.read_readonly(*addr);
                let high = bus.read_readonly(next_in_page(*addr));
                (make_word(low, high), false)
            },
            Operand::IndirectX(addr) => {
                let loc = (cpu.x as u16 + *addr as u16) % 256;
                let low = bus.read_readonly(loc);
                let high = bus.read_readonly((loc + 1) % 256);
                (make_word(low, high), false)
            },
            Operand::IndirectY(zp_addr) => {
                let low = bus.read_readonly(*zp_addr as u16);
                let high = bus.read_readonly((*zp_addr as u16 + 1) % 256);
                let addr = make_word(low, high);
                let new_addr = ((addr as u32 + cpu.y as u32) % 65536) as u16;
                (new_addr, new_addr / 256 != addr / 256)
            },
            Operand::ZeroPage(addr) => (*addr as u16, false),
            Operand::ZeroPageX(addr) => (((cpu.x as u16 + *addr as u16) % 256), false),
            Operand::ZeroPageY(addr) => (((cpu.y as u16 + *addr as u16) % 256), false),
            Operand::Absolute(addr) => (*addr, false),
            Operand::AbsoluteX(addr) => {
                let new_addr = ((*addr as u32 + cpu.x as u32) % 65536) as u16;
                (new_addr, new_addr / 256 != *addr / 256)
            },
            Operand::AbsoluteY(addr) => {
                let new_addr = ((*addr as u32 + cpu.y as u32) % 65536) as u16;
                (new_addr, new_addr / 256 != *addr / 256)
            },
            _ => (0, false),
        }
    }

    /// The operand's value and whether a page was crossed, reading through the bus.
    pub fn eval<B: Bus>(&self, cpu: &CPU, bus: &mut B) -> (r: (u8, bool))
        requires
            self.is_readable(),
        ensures
            (r.0, r.1, final(bus)@) == eval_spec::<B>(*self, *cpu, old(bus)@),
    {
        match self {
            Operand::Accumulator => (cpu.a, false),
            Operand::Immediate(value) => (*value, false),
            _ => {
                let (addr, page_boundary_crossed) = self.get_addr(cpu, bus);
                (bus.read(addr), page_boundary_crossed)
            },
        }
    }

    /// The operand's value without side effects on the bus.
    pub fn eval_readonly<B: Bus>(&self, cpu: &CPU, bus: &B) -> (r: (u8, bool))
        requires
            self.is_readable(),
        ensures
            r == eval_readonly_spec::<B>(*self, *cpu, bus@),
    {
        match self {
            Operand::Accumulator => (cpu.a, false),
            Operand::Immediate(value) => (*value, false),
            _ => {
                let (addr, page_boundary_crossed) = self.get_addr_readonly(cpu, bus);
                (bus.read_readonly(addr), page_boundary_crossed)
            },
        }
    }
}

} // verus!
