use vstd::prelude::*;

use super::cpu::lemma_decode_well_formed;
use super::instructions::{cycles_spec, decode_spec, operand_size_spec, operand_spec, Instruction};
use super::cpu::{fetch_spec, inc16, CPU};
use super::operand::{operand_bytes, word_spec};
use crate::bus::{read_spec, Bus};

verus! {

/// The bytes that encode an instruction's operand after its opcode, low byte
/// first; none for an instruction without operand.
pub open spec fn operand_encoding(i: Instruction) -> Seq<u8> {
    match operand_spec(i) {
        Some(op) => operand_bytes(op),
        None => seq![],
    }
}

/// Whether `opcode`, followed by the bytes `lo` and `hi`, decodes to an
/// instruction whose operand encodes back to exactly the operand bytes the
/// opcode takes.
pub open spec fn decodes_back(opcode: u8, lo: u8, hi: u8) -> bool {
    match operand_size_spec(opcode) {
        Some(n) => decode_spec(opcode, lo, hi) matches Some(i) && operand_encoding(i) == seq![lo, hi].subrange(
            0,
            n as int,
        ),
        None => decode_spec(opcode, lo, hi) is None,
    }
}

/// The bytes of a word, and the byte of a signed offset, read back.
proof fn lemma_byte_casts(lo: u8, hi: u8)
    ensures
        (word_spec(lo, hi) % 256) as u8 == lo,
        (word_spec(lo, hi) / 256) as u8 == hi,
        (lo as i8) as u8 == lo,
        operand_bytes(super::operand::Operand::Absolute(word_spec(lo, hi))) == seq![lo, hi],
{
    assert((lo as i8) as u8 == lo) by (bit_vector);
    assert(seq![(word_spec(lo, hi) % 256) as u8, (word_spec(lo, hi) / 256) as u8] =~= seq![lo, hi]);
}

proof fn lemma_decodes_back_0(opcode: u8, lo: u8, hi: u8)
    requires
        opcode < 64,
    ensures
        decodes_back(opcode, lo, hi),
{
    lemma_byte_casts(lo, hi);
    assert(seq![lo, hi].subrange(0, 0) =~= seq![]);
    assert(seq![lo, hi].subrange(0, 1) =~= seq![lo]);
    assert(seq![lo, hi].subrange(0, 2) =~= seq![lo, hi]);
}

proof fn lemma_decodes_back_1(opcode: u8, lo: u8, hi: u8)
    requires
        64 <= opcode < 128,
    ensures
        decodes_back(opcode, lo, hi),
{
    lemma_byte_casts(lo, hi);
    assert(seq![lo, hi].subrange(0, 0) =~= seq![]);
    assert(seq![lo, hi].subrange(0, 1) =~= seq![lo]);
    assert(seq![lo, hi].subrange(0, 2) =~= seq![lo, hi]);
}

proof fn lemma_decodes_back_2(opcode: u8, lo: u8, hi: u8)
    requires
        128 <= opcode < 192,
    ensures
        decodes_back(opcode, lo, hi),
{
    lemma_byte_casts(lo, hi);
    assert(seq![lo, hi].subrange(0, 0) =~= seq![]);
    assert(seq![lo, hi].subrange(0, 1) =~= seq![lo]);
    assert(seq![lo, hi].subrange(0, 2) =~= seq![lo, hi]);
}

proof fn lemma_decodes_back_3(opcode: u8, lo: u8, hi: u8)
    requires
        192 <= opcode,
    ensures
        decodes_back(opcode, lo, hi),
{
    lemma_byte_casts(lo, hi);
    assert(seq![lo, hi].subrange(0, 0) =~= seq![]);
    assert(seq![lo, hi].subrange(0, 1) =~= seq![lo]);
    assert(seq![lo, hi].subrange(0, 2) =~= seq![lo, hi]);
}

/// Decoding is exact: an opcode the CPU knows, followed by any operand bytes,
/// decodes to an instruction whose operand encodes back to exactly the bytes
/// the opcode takes; an unknown opcode decodes to nothing.
pub proof fn lemma_decode_reencodes(opcode: u8, lo: u8, hi: u8)
    ensures
        decodes_back(opcode, lo, hi),
{
    if opcode < 64 {
        lemma_decodes_back_0(opcode, lo, hi);
    } else if opcode < 128 {
        lemma_decodes_back_1(opcode, lo, hi);
    } else if opcode < 192 {
        lemma_decodes_back_2(opcode, lo, hi);
    } else {
        lemma_decodes_back_3(opcode, lo, hi);
    }
}


/// Fetching an instruction consumes exactly the bytes its operand encodes to:
/// the program counter moves past the opcode and those bytes, which are the
/// bytes read after the opcode, in order.
pub proof fn lemma_fetch_consumes_operand<B: Bus>(cpu: CPU, bus: B::V)
    ensures
        ({
            let (fetched, opcode, c1, _) = fetch_spec::<B>(cpu, bus);
            let pc1 = inc16(cpu.pc);
            let (_, b1) = read_spec::<B>(bus, cpu.pc);
            let (lo, b2) = read_spec::<B>(b1, pc1);
            let (hi, _) = read_spec::<B>(b2, inc16(pc1));
            fetched matches Some(i) ==> {
                let bytes = operand_encoding(i);
                &&& c1.pc as int == (cpu.pc as int + 1 + bytes.len()) % 65536
                &&& bytes == seq![lo, hi].subrange(0, bytes.len() as int)
            }
        }),
{
    let (opcode, b1) = read_spec::<B>(bus, cpu.pc);
    let pc1 = inc16(cpu.pc);
    let (lo, b2) = read_spec::<B>(b1, pc1);
    let (hi, _) = read_spec::<B>(b2, inc16(pc1));
    lemma_decode_reencodes(opcode, 0, 0);
    lemma_decode_reencodes(opcode, lo, 0);
    lemma_decode_reencodes(opcode, lo, hi);
    assert(seq![0u8, 0u8].subrange(0, 0) =~= seq![lo, hi].subrange(0, 0));
    assert(seq![lo, 0u8].subrange(0, 1) =~= seq![lo, hi].subrange(0, 1));
}


/// The 29 opcodes the CPU does not know: 0x02, 0x0B, 0x12, 0x22, 0x2B, 0x32,
/// 0x42, 0x4B, 0x52, 0x62, 0x6B, 0x72, 0x82, 0x89, 0x8B, 0x92, 0x93, 0x9B,
/// 0x9C, 0x9E, 0x9F, 0xAB, 0xB2, 0xBB, 0xC2, 0xCB, 0xD2, 0xE2 and 0xF2.
pub open spec fn unknown_opcode(o: u8) -> bool {
    o == 0x02 || o == 0x0b || o == 0x12 || o == 0x22 || o == 0x2b || o == 0x32 || o == 0x42 || o == 0x4b || o == 0x52 || o == 0x62 || o == 0x6b || o == 0x72 || o == 0x82 || o == 0x89 || o == 0x8b || o == 0x92 || o == 0x93 || o == 0x9b || o == 0x9c || o == 0x9e || o == 0x9f || o == 0xab || o == 0xb2 || o == 0xbb || o == 0xc2 || o == 0xcb || o == 0xd2 || o == 0xe2 || o == 0xf2
}

proof fn lemma_unknown_quarter(o: u8, lo: u8, hi: u8)
    ensures
        decode_spec(o, lo, hi) is None <==> unknown_opcode(o),
{
    if o < 64 {
    } else if o < 128 {
    } else if o < 192 {
    } else {
    }
}

/// Decoding fails exactly on the opcodes the CPU does not know; every other
/// opcode decodes to a well-formed instruction of 2 to 8 base cycles.
pub proof fn lemma_known_opcodes(o: u8, lo: u8, hi: u8)
    ensures
        decode_spec(o, lo, hi) is None <==> unknown_opcode(o),
        decode_spec(o, lo, hi) matches Some(i) ==> 2 <= cycles_spec(i)->0 <= 8,
{
    lemma_unknown_quarter(o, lo, hi);
    lemma_decode_well_formed(o, lo, hi);
}

} // verus!
