use vstd::prelude::*;

verus! {

/// 1 for a set flag, 0 for a clear one.
pub open spec fn flag_value(b: bool) -> int {
    if b {
        1
    } else {
        0
    }
}

/// Whether the bit of weight `weight` (a power of two) is set in `v`.
pub open spec fn has_bit(v: int, weight: int) -> bool {
    (v / weight) % 2 == 1
}

/// The 6502 processor status register `P`, one field per bit, bit 0 first.
#[derive(Debug, Clone, Copy, PartialEq, Eq, Structural)]
pub struct CPUStatusRegister {
    pub carry_flag: bool,
    pub zero_flag: bool,
    pub interrupt_disable: bool,
    pub decimal_flag: bool,
    pub break_flag: bool,
    pub unused: bool,
    pub overflow_flag: bool,
    pub negative_flag: bool,
}

/// The byte that holds the flags of `p`.
pub open spec fn status_byte(p: CPUStatusRegister) -> int {
    flag_value(p.carry_flag) + 2 * flag_value(p.zero_flag) + 4 * flag_value(p.interrupt_disable)
        + 8 * flag_value(p.decimal_flag) + 16 * flag_value(p.break_flag) + 32 * flag_value(
        p.unused,
    ) + 64 * flag_value(p.overflow_flag) + 128 * flag_value(p.negative_flag)
}

/// The flags that the byte `b` holds.
pub open spec fn status_from_byte(b: u8) -> CPUStatusRegister {
    CPUStatusRegister {
        carry_flag: has_bit(b as int, 1),
        zero_flag: has_bit(b as int, 2),
        interrupt_disable: has_bit(b as int, 4),
        decimal_flag: has_bit(b as int, 8),
        break_flag: has_bit(b as int, 16),
        unused: has_bit(b as int, 32),
        overflow_flag: has_bit(b as int, 64),
        negative_flag: has_bit(b as int, 128),
    }
}

impl CPUStatusRegister {
    /// Decodes a status byte.
    pub fn from_byte(value: u8) -> (r: CPUStatusRegister)
        ensures
            r == status_from_byte(value),
    {
        CPUStatusRegister {
            carry_flag: value % 2 == 1,
            zero_flag: (value / 2) % 2 == 1,
            interrupt_disable: (value / 4) % 2 == 1,
            decimal_flag: (value / 8) % 2 == 1,
            break_flag: (value / 16) % 2 == 1,
            unused: (value / 32) % 2 == 1,
            overflow_flag: (value / 64) % 2 == 1,
            negative_flag: (value / 128) % 2 == 1,
        }
    }

    /// Encodes the flags as a status byte.
    pub fn to_byte(&self) -> (r: u8)
        ensures
            r as int == status_byte(*self),
    {
        let mut r: u8 = 0;
        if self.carry_flag {
            r = r + 1;
        }
        if self.zero_flag {
            r = r + 2;
        }
        if self.interrupt_disable {
            r = r + 4;
        }
        if self.decimal_flag {
            r = r + 8;
        }
        if self.break_flag {
            r = r + 16;
        }
        if self.unused {
            r = r + 32;
        }
        if self.overflow_flag {
            r = r + 64;
        }
        if self.negative_flag {
            r = r + 128;
        }
        r
    }
}

/// Decoding the byte of a status register gives back the same flags.
pub proof fn lemma_status_byte_roundtrip(p: CPUStatusRegister)
    ensures
        0 <= status_byte(p) <= 255,
        status_from_byte(status_byte(p) as u8) == p,
{
    let b = status_byte(p);
    assert(has_bit(b, 1) == p.carry_flag);
    assert(has_bit(b, 2) == p.zero_flag);
    assert(has_bit(b, 4) == p.interrupt_disable);
    assert(has_bit(b, 8) == p.decimal_flag);
    assert(has_bit(b, 16) == p.break_flag);
    assert(has_bit(b, 32) == p.unused);
    assert(has_bit(b, 64) == p.overflow_flag);
    assert(has_bit(b, 128) == p.negative_flag);
}

/// Encoding the flags that a byte holds gives back the byte.
pub proof fn lemma_byte_status_roundtrip(b: u8)
    ensures
        status_byte(status_from_byte(b)) == b as int,
{
    assert(b == b % 2 + 2 * ((b / 2) % 2) + 4 * ((b / 4) % 2) + 8 * ((b / 8) % 2) + 16 * ((b
        / 16) % 2) + 32 * ((b / 32) % 2) + 64 * ((b / 64) % 2) + 128 * ((b / 128) % 2))
        by (bit_vector);
}

} // verus!
