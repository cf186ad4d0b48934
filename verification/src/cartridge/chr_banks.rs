use vstd::prelude::*;

use super::cartridge::InterceptorResult;
use super::mmc1::{bit_u8, lemma_mmc1_five_writes, MMC1View};
use super::mmc3::MMC3View;

verus! {

/// In MMC1's 4 KiB CHR mode (bit 4 of the control register set) the two
/// pattern tables are banked apart: a PPU read at `o` below 0x1000 gives the
/// byte `o` of the 4 KiB bank that CHR bank 0 selects, and a read at
/// `0x1000 + o` the byte `o` of the 4 KiB bank that CHR bank 1 selects, both
/// wrapped around the CHR memory.
pub proof fn lemma_mmc1_split_chr_banks(m: MMC1View, o: u16)
    requires
        (m.ppu_control / 16) % 2 == 1,
        o < 0x1000,
        m.chr_mem.len() > 0,
    ensures
        m.ppu_read(o) == InterceptorResult::Intercepted(
            Some(m.chr_mem[(m.chr_low_bank_select as int * 4096 + o as int) % m.chr_mem.len() as int]),
        ),
        m.ppu_read((0x1000 + o) as u16) == InterceptorResult::Intercepted(
            Some(m.chr_mem[(m.chr_high_bank_select as int * 4096 + o as int) % m.chr_mem.len() as int]),
        ),
{
}

/// In MMC1's 8 KiB CHR mode (bit 4 of the control register clear) CHR bank 0
/// alone selects an 8 KiB bank for the whole pattern space: a PPU read at `a`
/// below 0x2000 gives its byte `a`, wrapped around the CHR memory.
pub proof fn lemma_mmc1_whole_chr_bank(m: MMC1View, a: u16)
    requires
        (m.ppu_control / 16) % 2 == 0,
        a < 0x2000,
        m.chr_mem.len() > 0,
    ensures
        m.ppu_read(a) == InterceptorResult::Intercepted(
            Some(m.chr_mem[(m.chr_low_bank_select as int * 8192 + a as int) % m.chr_mem.len() as int]),
        ),
{
}

/// Five serial writes (bit 7 clear) from 0xC000 to 0xDFFF, starting from an
/// empty shift register, load CHR bank 1 with their five low bits, the first
/// write in bit 0; in 4 KiB CHR mode the upper pattern table then reads from
/// the 4 KiB bank so chosen, while the lower one stays on CHR bank 0.
pub proof fn lemma_mmc1_chr_bank1_write(
    m: MMC1View,
    addr: u16,
    w0: u8,
    w1: u8,
    w2: u8,
    w3: u8,
    w4: u8,
    o: u16,
)
    requires
        m.shift == 16,
        0xc000 <= addr < 0xe000,
        w0 < 128 && w1 < 128 && w2 < 128 && w3 < 128 && w4 < 128,
        (m.ppu_control / 16) % 2 == 1,
        o < 0x1000,
        m.chr_mem.len() > 0,
    ensures
        ({
            let after = m.cpu_write(addr, w0).cpu_write(addr, w1).cpu_write(addr, w2).cpu_write(
                addr,
                w3,
            ).cpu_write(addr, w4);
            let bank = w0 as int % 2 + 2 * (w1 as int % 2) + 4 * (w2 as int % 2) + 8 * (w3 as int
                % 2) + 16 * (w4 as int % 2);
            &&& after.shift == 16
            &&& after.chr_high_bank_select == bank
            &&& after.chr_low_bank_select == m.chr_low_bank_select
            &&& after.ppu_read((0x1000 + o) as u16) == InterceptorResult::Intercepted(
                Some(m.chr_mem[(bank * 4096 + o as int) % m.chr_mem.len() as int]),
            )
            &&& after.ppu_read(o) == m.ppu_read(o)
        }),
{
    let b0 = w0 % 2 == 1;
    let b1 = w1 % 2 == 1;
    let b2 = w2 % 2 == 1;
    let b3 = w3 % 2 == 1;
    let b4 = w4 % 2 == 1;
    lemma_mmc1_five_writes(b0, b1, b2, b3, b4);
    assert(bit_u8(b0) == w0 % 2 && bit_u8(b1) == w1 % 2 && bit_u8(b2) == w2 % 2 && bit_u8(b3) == w3
        % 2 && bit_u8(b4) == w4 % 2);
    let after = m.cpu_write(addr, w0).cpu_write(addr, w1).cpu_write(addr, w2).cpu_write(
        addr,
        w3,
    ).cpu_write(addr, w4);
    lemma_mmc1_split_chr_banks(after, o);
    lemma_mmc1_split_chr_banks(m, o);
}


/// The byte `o` of 1 KiB bank `bank` of the CHR data; open bus past its end.
pub open spec fn chr_kib_byte(data: Seq<u8>, bank: u8, o: int) -> Option<u8> {
    if 0 <= bank as int * 1024 + o < data.len() {
        Some(data[bank as int * 1024 + o])
    } else {
        None
    }
}

/// With CHR A12 inversion clear, MMC3 maps the lower pattern table through R0
/// and R1 (2 KiB each, counted in 1 KiB banks) and the upper one through R2,
/// R3, R4 and R5, each its own 1 KiB window at 0x1000, 0x1400, 0x1800 and
/// 0x1C00: the read at `0x1000 + k * 0x400 + o` gives byte `o` of the 1 KiB bank
/// that register `2 + k` holds.
pub proof fn lemma_mmc3_chr_windows(m: MMC3View, k: u16, o: u16, p: u16)
    requires
        !m.chr_a12_inversion,
        m.chr_mapping.len() >= 6,
        k < 4,
        o < 0x400,
        p < 0x800,
    ensures
        m.ppu_read((0x1000 + k * 0x400 + o) as u16) == InterceptorResult::Intercepted(
            chr_kib_byte(m.chr_data, m.chr_mapping[2 + k as int], o as int),
        ),
        m.ppu_read(p) == InterceptorResult::Intercepted(
            chr_kib_byte(m.chr_data, m.chr_mapping[0], p as int),
        ),
        m.ppu_read((0x800 + p) as u16) == InterceptorResult::Intercepted(
            chr_kib_byte(m.chr_data, m.chr_mapping[1], p as int),
        ),
{
    if k == 0 {
        assert(0x1000 + k * 0x400 + o == 0x1000 + o);
    } else if k == 1 {
        assert(0x1000 + k * 0x400 + o == 0x1400 + o);
    } else if k == 2 {
        assert(0x1000 + k * 0x400 + o == 0x1800 + o);
    } else {
        assert(0x1000 + k * 0x400 + o == 0x1c00 + o);
    }
}

/// With CHR A12 inversion set, the two halves of the pattern space swap: R2 to
/// R5 map the 1 KiB windows at 0x0000, 0x0400, 0x0800 and 0x0C00, and R0 and
/// R1 the 2 KiB windows at 0x1000 and 0x1800.
pub proof fn lemma_mmc3_inverted_chr_windows(m: MMC3View, k: u16, o: u16, p: u16)
    requires
        m.chr_a12_inversion,
        m.chr_mapping.len() >= 6,
        k < 4,
        o < 0x400,
        p < 0x800,
    ensures
        m.ppu_read((k * 0x400 + o) as u16) == InterceptorResult::Intercepted(
            chr_kib_byte(m.chr_data, m.chr_mapping[2 + k as int], o as int),
        ),
        m.ppu_read((0x1000 + p) as u16) == InterceptorResult::Intercepted(
            chr_kib_byte(m.chr_data, m.chr_mapping[0], p as int),
        ),
        m.ppu_read((0x1800 + p) as u16) == InterceptorResult::Intercepted(
            chr_kib_byte(m.chr_data, m.chr_mapping[1], p as int),
        ),
{
    if k == 0 {
        assert(k * 0x400 + o == o);
    } else if k == 1 {
        assert(k * 0x400 + o == 0x400 + o);
    } else if k == 2 {
        assert(k * 0x400 + o == 0x800 + o);
    } else {
        assert(k * 0x400 + o == 0xc00 + o);
    }
}

/// Selecting register `sel` (2 to 5) at 0x8000, with the inversion bit clear,
/// and writing `v` to it at 0x8001 stores `v` in that register alone, and the
/// PPU then reads the 1 KiB window `0x1000 + (sel - 2) * 0x400` from 1 KiB bank
/// `v`; the other windows of the upper pattern table keep their banks.
pub proof fn lemma_mmc3_chr_register_write(m: MMC3View, sel: u8, v: u8, k: u16, o: u16)
    requires
        m.chr_mapping.len() >= 6,
        2 <= sel <= 5,
        k < 4,
        o < 0x400,
    ensures
        ({
            let after = m.cpu_write(0x8000, sel).cpu_write(0x8001, v);
            &&& !after.chr_a12_inversion
            &&& after.chr_mapping == m.chr_mapping.update(sel as int, v)
            &&& after.ppu_read((0x1000 + k * 0x400 + o) as u16) == InterceptorResult::Intercepted(
                chr_kib_byte(
                    m.chr_data,
                    if k + 2 == sel {
                        v
                    } else {
                        m.chr_mapping[2 + k as int]
                    },
                    o as int,
                ),
            )
        }),
{
    assert(sel & 7 == sel && (sel >> 7u8) == 0) by (bit_vector)
        requires
            2 <= sel <= 5,
    ;
    let after = m.cpu_write(0x8000, sel).cpu_write(0x8001, v);
    lemma_mmc3_chr_windows(after, k, o, 0);
}

} // verus!
