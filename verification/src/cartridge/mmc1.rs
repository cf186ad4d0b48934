use vstd::prelude::*;

use super::cartridge::{byte_at, get_byte, set_byte, store_at, CartridgeMirroring, InterceptorResult};
use crate::nes::ines_rom::{initial_mirroring_spec, INESRom};

verus! {

/// MMC1's nametable arrangement, bits 0-1 of its control register.
#[derive(Debug, Clone, Copy, PartialEq, Eq, Structural)]
pub enum MMC1MirroringMode {
    SingleScreenLow,
    SingleScreenHigh,
    Vertical,
    Horizontal,
}

impl MMC1MirroringMode {
    /// The two-bit field value of the mode.
    pub fn into_bits(self) -> (r: u8)
        ensures
            r == mmc1_mirroring_bits(self),
    {
        match self {
            MMC1MirroringMode::SingleScreenLow => 0,
            MMC1MirroringMode::SingleScreenHigh => 1,
            MMC1MirroringMode::Vertical => 2,
            MMC1MirroringMode::Horizontal => 3,
        }
    }

    /// The mode a field value selects; values above 3 select `Horizontal`.
    pub fn from_bits(value: u8) -> (r: MMC1MirroringMode)
        ensures
            r == mmc1_mirroring_mode(value),
    {
        match value {
            0 => MMC1MirroringMode::SingleScreenLow,
            1 => MMC1MirroringMode::SingleScreenHigh,
            2 => MMC1MirroringMode::Vertical,
            _ => MMC1MirroringMode::Horizontal,
        }
    }
}

/// The field value of a mirroring mode.
pub open spec fn mmc1_mirroring_bits(m: MMC1MirroringMode) -> u8 {
    match m {
        MMC1MirroringMode::SingleScreenLow => 0,
        MMC1MirroringMode::SingleScreenHigh => 1,
        MMC1MirroringMode::Vertical => 2,
        MMC1MirroringMode::Horizontal => 3,
    }
}

/// The mirroring mode a field value selects.
pub open spec fn mmc1_mirroring_mode(v: u8) -> MMC1MirroringMode {
    if v == 0 {
        MMC1MirroringMode::SingleScreenLow
    } else if v == 1 {
        MMC1MirroringMode::SingleScreenHigh
    } else if v == 2 {
        MMC1MirroringMode::Vertical
    } else {
        MMC1MirroringMode::Horizontal
    }
}

/// MMC1's PRG ROM banking, bits 2-3 of its control register.
#[derive(Debug, Clone, Copy, PartialEq, Eq, Structural)]
pub enum MMC1PRGROMBankMode {
    Full32KB1,
    Full32KB2,
    FixedLow,
    FixedHigh,
}

impl MMC1PRGROMBankMode {
    /// The two-bit field value of the mode.
    pub fn into_bits(self) -> (r: u8)
        ensures
            r == mmc1_prg_mode_bits(self),
    {
        match self {
            MMC1PRGROMBankMode::Full32KB1 => 0,
            MMC1PRGROMBankMode::Full32KB2 => 1,
            MMC1PRGROMBankMode::FixedLow => 2,
            MMC1PRGROMBankMode::FixedHigh => 3,
        }
    }

    /// The mode a field value selects; values above 3 select `FixedHigh`.
    pub fn from_bits(value: u8) -> (r: MMC1PRGROMBankMode)
        ensures
            r == mmc1_prg_mode(value),
    {
        match value {
            0 => MMC1PRGROMBankMode::Full32KB1,
            1 => MMC1PRGROMBankMode::Full32KB2,
            2 => MMC1PRGROMBankMode::FixedLow,
            _ => MMC1PRGROMBankMode::FixedHigh,
        }
    }
}

/// The field value of a PRG banking mode.
pub open spec fn mmc1_prg_mode_bits(m: MMC1PRGROMBankMode) -> u8 {
    match m {
        MMC1PRGROMBankMode::Full32KB1 => 0,
        MMC1PRGROMBankMode::Full32KB2 => 1,
        MMC1PRGROMBankMode::FixedLow => 2,
        MMC1PRGROMBankMode::FixedHigh => 3,
    }
}

/// The PRG banking mode a field value selects.
pub open spec fn mmc1_prg_mode(v: u8) -> MMC1PRGROMBankMode {
    if v == 0 {
        MMC1PRGROMBankMode::Full32KB1
    } else if v == 1 {
        MMC1PRGROMBankMode::Full32KB2
    } else if v == 2 {
        MMC1PRGROMBankMode::FixedLow
    } else {
        MMC1PRGROMBankMode::FixedHigh
    }
}

/// MMC1's CHR banking, bit 4 of its control register.
#[derive(Debug, Clone, Copy, PartialEq, Eq, Structural)]
pub enum MMC1CHRROMBankMode {
    Full8KB,
    Split4KB,
}

impl MMC1CHRROMBankMode {
    /// The one-bit field value of the mode.
    pub fn into_bits(self) -> (r: u8)
        ensures
            r == (if self == MMC1CHRROMBankMode::Full8KB {
                0u8
            } else {
                1u8
            }),
    {
        match self {
            MMC1CHRROMBankMode::Full8KB => 0,
            MMC1CHRROMBankMode::Split4KB => 1,
        }
    }

    /// The mode a field value selects; any value but 0 selects `Split4KB`.
    pub fn from_bits(value: u8) -> (r: MMC1CHRROMBankMode)
        ensures
            r == (if value == 0 {
                MMC1CHRROMBankMode::Full8KB
            } else {
                MMC1CHRROMBankMode::Split4KB
            }),
    {
        match value {
            0 => MMC1CHRROMBankMode::Full8KB,
            _ => MMC1CHRROMBankMode::Split4KB,
        }
    }
}

/// MMC1's control register: mirroring in bits 0-1, PRG banking in bits 2-3, CHR
/// banking in bit 4.
#[derive(Debug, Clone, Copy, PartialEq, Eq, Structural)]
pub struct MMC1ControlRegister(pub u8);

/// The control byte with its PRG banking field set to `FixedHigh`.
pub open spec fn with_fixed_high(c: u8) -> u8 {
    (c as int - ((c as int / 4) % 4) * 4 + 12) as u8
}

impl MMC1ControlRegister {
    /// The mirroring field.
    pub fn mirroring(&self) -> (r: MMC1MirroringMode)
        ensures
            r == mmc1_mirroring_mode(self.0 % 4),
    {
        MMC1MirroringMode::from_bits(self.0 % 4)
    }

    /// The PRG banking field.
    pub fn prg_rom_bank_mode(&self) -> (r: MMC1PRGROMBankMode)
        ensures
            r == mmc1_prg_mode((self.0 / 4) % 4),
    {
        MMC1PRGROMBankMode::from_bits((self.0 / 4) % 4)
    }

    /// The CHR banking field.
    pub fn chr_rom_bank_mode(&self) -> (r: MMC1CHRROMBankMode)
        ensures
            r == (if (self.0 / 16) % 2 == 0 {
                MMC1CHRROMBankMode::Full8KB
            } else {
                MMC1CHRROMBankMode::Split4KB
            }),
    {
        MMC1CHRROMBankMode::from_bits((self.0 / 16) % 2)
    }

    /// Sets the PRG banking field to `FixedHigh`.
    pub fn set_prg_rom_bank_mode_fixed_high(&mut self)
        ensures
            final(self).0 == with_fixed_high(old(self).0),
    {
        self.0 = self.0 - ((self.0 / 4) % 4) * 4 + 12;
    }
}

/// MMC1's five-bit serial load register. It starts with a marker bit in bit 4;
/// each write shifts a bit in from the top, and when the marker reaches bit 0 the
/// five bits written are complete.
#[derive(Debug, Clone, Copy, PartialEq, Eq, Structural)]
pub struct MMC1ShiftRegister {
    pub value: u8,
}

/// One for a set bit, zero for a clear one.
pub open spec fn bit_u8(b: bool) -> u8 {
    if b {
        1u8
    } else {
        0u8
    }
}

/// The register after writing `bit`, and the completed five-bit value if this
/// write completed it.
pub open spec fn shift_write_spec(value: u8, bit: bool) -> (u8, Option<u8>) {
    let new_value = (value >> 1u8) | (bit_u8(bit) << 4u8);
    if value & 1u8 == 1u8 {
        (16u8, Some(new_value))
    } else {
        (new_value, None)
    }
}

impl MMC1ShiftRegister {
    /// An empty register.
    pub fn new() -> (r: MMC1ShiftRegister)
        ensures
            r.value == 16,
    {
        MMC1ShiftRegister { value: 16 }
    }

    /// Shifts `value` in; returns the five bits written once complete.
    pub fn write_bit(&mut self, value: bool) -> (r: Option<u8>)
        ensures
            (final(self).value, r) == shift_write_spec(old(self).value, value),
    {
        let last_bit = self.value & 1u8 == 1u8;
        let bit: u8 = if value {
            1
        } else {
            0
        };
        let new_value = (self.value >> 1u8) | (bit << 4u8);
        if last_bit {
            self.reset();
            Some(new_value)
        } else {
            self.value = new_value;
            None
        }
    }

    /// Empties the register.
    pub fn reset(&mut self)
        ensures
            final(self).value == 16,
    {
        self.value = 16;
    }
}

/// Five writes to an empty shift register yield the five bits written, the
/// first in bit 0, and leave the register empty; the first four yield nothing.
pub proof fn lemma_mmc1_five_writes(b0: bool, b1: bool, b2: bool, b3: bool, b4: bool)
    ensures
        ({
            let (v1, r1) = shift_write_spec(16, b0);
            let (v2, r2) = shift_write_spec(v1, b1);
            let (v3, r3) = shift_write_spec(v2, b2);
            let (v4, r4) = shift_write_spec(v3, b3);
            let (v5, r5) = shift_write_spec(v4, b4);
            &&& r1 is None && r2 is None && r3 is None && r4 is None
            &&& v5 == 16
            &&& r5 == Some(
                (bit_u8(b0) + 2 * bit_u8(b1) + 4 * bit_u8(b2) + 8 * bit_u8(b3) + 16 * bit_u8(
                    b4,
                )) as u8,
            )
        }),
{
    let c0: u8 = bit_u8(b0);
    let c1: u8 = bit_u8(b1);
    let c2: u8 = bit_u8(b2);
    let c3: u8 = bit_u8(b3);
    let c4: u8 = bit_u8(b4);
    let v1: u8 = (16u8 >> 1u8) | (c0 << 4u8);
    let v2: u8 = (v1 >> 1u8) | (c1 << 4u8);
    let v3: u8 = (v2 >> 1u8) | (c2 << 4u8);
    let v4: u8 = (v3 >> 1u8) | (c3 << 4u8);
    let v5: u8 = (v4 >> 1u8) | (c4 << 4u8);
    assert(16u8 & 1u8 == 0u8 && v1 & 1u8 == 0u8 && v2 & 1u8 == 0u8 && v3 & 1u8 == 0u8 && v4 & 1u8
        == 1u8 && v5 == c0 + 2 * c1 + 4 * c2 + 8 * c3 + 16 * c4) by (bit_vector)
        requires
            c0 <= 1 && c1 <= 1 && c2 <= 1 && c3 <= 1 && c4 <= 1,
            v1 == (16u8 >> 1u8) | (c0 << 4u8),
            v2 == (v1 >> 1u8) | (c1 << 4u8),
            v3 == (v2 >> 1u8) | (c2 << 4u8),
            v4 == (v3 >> 1u8) | (c3 << 4u8),
            v5 == (v4 >> 1u8) | (c4 << 4u8),
    ;
    assert(shift_write_spec(16, b0) == (v1, None::<u8>));
    assert(shift_write_spec(v1, b1) == (v2, None::<u8>));
    assert(shift_write_spec(v2, b2) == (v3, None::<u8>));
    assert(shift_write_spec(v3, b3) == (v4, None::<u8>));
    assert(shift_write_spec(v4, b4) == (16u8, Some(v5)));
}

/// MMC1's registers and memory as one record (the layout the mapper's two halves
/// share).
#[derive(Debug, Clone)]
pub struct MMC1State {
    pub chr_mem: Vec<u8>,
    pub control: MMC1ControlRegister,
    pub prg_bank_select: u8,
    pub chr_low_bank_select: u8,
    pub chr_high_bank_select: u8,
    pub prg_ram_bank_select: u8,
    pub prg_ram: Vec<u8>,
    pub shift_register: MMC1ShiftRegister,
}

impl MMC1State {
    /// The power-on state, with the given CHR memory.
    pub fn new(chr_data: Vec<u8>) -> (r: MMC1State)
        ensures
            r.chr_mem@ == chr_data@,
            r.control.0 == 12,
            r.prg_bank_select == 0,
            r.chr_low_bank_select == 0,
            r.chr_high_bank_select == 0,
            r.prg_ram_bank_select == 0,
            r.prg_ram@ == Seq::new(32768, |i: int| 0u8),
            r.shift_register.value == 16,
    {
        let prg_ram = vec![0u8; 32768];
        assert(prg_ram@ =~= Seq::new(32768, |i: int| 0u8));
        MMC1State {
            chr_mem: chr_data,
            control: MMC1ControlRegister(12),
            prg_bank_select: 0,
            chr_low_bank_select: 0,
            chr_high_bank_select: 0,
            prg_ram_bank_select: 0,
            prg_ram,
            shift_register: MMC1ShiftRegister::new(),
        }
    }
}

/// MMC1's CPU side.
#[derive(Debug, Clone)]
pub struct MMC1CPUBusInterceptor {
    pub prg_rom: Vec<u8>,
    pub control: MMC1ControlRegister,
    pub prg_bank_select: u8,
    pub prg_ram_bank_select: u8,
    pub prg_ram: Vec<u8>,
    pub shift_register: MMC1ShiftRegister,
}

/// MMC1's PPU side.
#[derive(Debug, Clone)]
pub struct MMC1PPUMemoryInterceptor {
    pub control: MMC1ControlRegister,
    pub chr_low_bank_select: u8,
    pub chr_high_bank_select: u8,
    pub chr_mem: Vec<u8>,
    pub mirroring: CartridgeMirroring,
}

/// Mapper 1.
#[derive(Debug, Clone)]
pub struct MMC1 {
    pub cpu_bus: MMC1CPUBusInterceptor,
    pub ppu_memory: MMC1PPUMemoryInterceptor,
}

/// The contents of an MMC1 cartridge.
#[verifier::ext_equal]
pub struct MMC1View {
    pub prg_rom: Seq<u8>,
    pub control: u8,
    pub prg_bank_select: u8,
    pub prg_ram_bank_select: u8,
    pub prg_ram: Seq<u8>,
    pub shift: u8,
    pub ppu_control: u8,
    pub chr_low_bank_select: u8,
    pub chr_high_bank_select: u8,
    pub chr_mem: Seq<u8>,
    pub mirroring: CartridgeMirroring,
}

impl View for MMC1 {
    type V = MMC1View;

    open spec fn view(&self) -> MMC1View {
        MMC1View {
            prg_rom: self.cpu_bus.prg_rom@,
            control: self.cpu_bus.control.0,
            prg_bank_select: self.cpu_bus.prg_bank_select,
            prg_ram_bank_select: self.cpu_bus.prg_ram_bank_select,
            prg_ram: self.cpu_bus.prg_ram@,
            shift: self.cpu_bus.shift_register.value,
            ppu_control: self.ppu_memory.control.0,
            chr_low_bank_select: self.ppu_memory.chr_low_bank_select,
            chr_high_bank_select: self.ppu_memory.chr_high_bank_select,
            chr_mem: self.ppu_memory.chr_mem@,
            mirroring: self.ppu_memory.mirroring,
        }
    }
}

/// The byte at `index` wrapped around `v`; open bus when `v` is empty.
pub open spec fn wrapped_byte(v: Seq<u8>, index: int) -> Option<u8> {
    if v.len() == 0 {
        None
    } else {
        byte_at(v, index % (v.len() as int))
    }
}

/// `v` with `b` stored at `index` wrapped around it; unchanged when `v` is empty.
pub open spec fn wrapped_store(v: Seq<u8>, index: int, b: u8) -> Seq<u8> {
    if v.len() == 0 {
        v
    } else {
        store_at(v, index % (v.len() as int), b)
    }
}

/// The nametable arrangement an MMC1 mirroring field selects.
pub open spec fn mmc1_cartridge_mirroring(bits: u8) -> CartridgeMirroring {
    if bits == 2 {
        CartridgeMirroring::Vertical
    } else if bits == 3 {
        CartridgeMirroring::Horizontal
    } else {
        CartridgeMirroring::SingleScreen
    }
}

impl MMC1View {
    /// The cartridge as a ROM image powers it on.
    pub open spec fn power_on(rom: INESRom) -> MMC1View {
        MMC1View {
            prg_rom: rom.prg_data@,
            control: 12,
            prg_bank_select: 0,
            prg_ram_bank_select: 0,
            prg_ram: Seq::new(32768, |i: int| 0u8),
            shift: 16,
            ppu_control: 12,
            chr_low_bank_select: 0,
            chr_high_bank_select: 0,
            chr_mem: if rom.uses_chr_ram {
                Seq::new(131072, |i: int| 0u8)
            } else {
                rom.chr_data@
            },
            mirroring: initial_mirroring_spec(rom),
        }
    }

    /// The PRG ROM offset of a CPU address from 0x8000, by banking mode; `None`
    /// where the fixed last bank is asked of a ROM shorter than 16 KiB.
    pub open spec fn prg_index(self, addr: u16) -> Option<int> {
        let mode = (self.control / 4) % 4;
        let bank = self.prg_bank_select as int;
        if addr < 0xc000 {
            let offset = addr as int - 0x8000;
            Some(
                if mode <= 1 {
                    0x8000 * bank + offset
                } else if mode == 2 {
                    offset
                } else {
                    0x4000 * bank + offset
                },
            )
        } else {
            let offset = addr as int - 0xc000;
            if mode <= 1 {
                Some(0x8000 * bank + offset + 0x2000)
            } else if mode == 2 {
                Some(0x4000 * bank + offset)
            } else if self.prg_rom.len() < 0x4000 {
                None
            } else {
                Some(self.prg_rom.len() - 0x4000 + offset)
            }
        }
    }

    /// The CHR memory offset of a PPU address below 0x2000, by banking mode.
    pub open spec fn chr_index(self, addr: u16) -> int {
        let split = (self.ppu_control / 16) % 2 == 1;
        if addr < 0x1000 {
            if split {
                self.chr_low_bank_select as int * 4096 + addr as int
            } else {
                self.chr_low_bank_select as int * 8192 + addr as int
            }
        } else {
            if split {
                self.chr_high_bank_select as int * 4096 + (addr as int - 0x1000)
            } else {
                self.chr_low_bank_select as int * 8192 + (addr as int - 0x1000) + 0x1000
            }
        }
    }

    /// The PRG RAM offset of a CPU address from 0x6000.
    pub open spec fn prg_ram_index(self, addr: u16) -> int {
        0x2000 * self.prg_ram_bank_select as int + (addr as int - 0x6000)
    }

    /// What the mapper answers to a CPU read.
    pub open spec fn cpu_read(self, addr: u16) -> InterceptorResult<Option<u8>> {
        if addr < 0x6000 {
            InterceptorResult::NotIntercepted
        } else if addr < 0x8000 {
            InterceptorResult::Intercepted(wrapped_byte(self.prg_ram, self.prg_ram_index(addr)))
        } else {
            match self.prg_index(addr) {
                Some(i) => InterceptorResult::Intercepted(wrapped_byte(self.prg_rom, i)),
                None => InterceptorResult::Intercepted(None),
            }
        }
    }

    /// The cartridge after a CPU write: PRG RAM from 0x6000; from 0x8000, a write
    /// with bit 7 set empties the shift register and fixes the last PRG bank, and
    /// otherwise its bit 0 goes into the shift register; a completed value goes
    /// to the register the address selects (control, CHR bank 0, CHR bank 1, PRG
    /// bank).
    pub open spec fn cpu_write(self, addr: u16, value: u8) -> MMC1View {
        if addr < 0x6000 {
            self
        } else if addr < 0x8000 {
            MMC1View {
                prg_ram: wrapped_store(self.prg_ram, self.prg_ram_index(addr), value),
                ..self
            }
        } else if value >= 128 {
            MMC1View { shift: 16, control: with_fixed_high(self.control), ..self }
        } else {
            let (shift, result) = shift_write_spec(self.shift, value % 2 == 1);
            let s = MMC1View { shift, ..self };
            match result {
                None => s,
                Some(data) => if addr < 0xa000 {
                    MMC1View {
                        control: data,
                        ppu_control: data,
                        mirroring: mmc1_cartridge_mirroring(data % 4),
                        ..s
                    }
                } else if addr < 0xc000 {
                    MMC1View { chr_low_bank_select: data, ..s }
                } else if addr < 0xe000 {
                    MMC1View { chr_high_bank_select: data, ..s }
                } else {
                    MMC1View { prg_bank_select: data % 16, ..s }
                },
            }
        }
    }

    /// What the mapper answers to a PPU read: banked CHR memory below 0x2000.
    pub open spec fn ppu_read(self, addr: u16) -> InterceptorResult<Option<u8>> {
        if addr < 0x2000 {
            InterceptorResult::Intercepted(wrapped_byte(self.chr_mem, self.chr_index(addr)))
        } else {
            InterceptorResult::NotIntercepted
        }
    }

    /// The cartridge after a PPU write into banked CHR memory.
    pub open spec fn ppu_write(self, addr: u16, value: u8) -> MMC1View {
        if addr < 0x2000 {
            MMC1View { chr_mem: wrapped_store(self.chr_mem, self.chr_index(addr), value), ..self }
        } else {
            self
        }
    }
}

fn wrapped_get(v: &Vec<u8>, index: usize) -> (r: Option<u8>)
    ensures
        r == wrapped_byte(v@, index as int),
{
    if v.len() == 0 {
        None
    } else {
        get_byte(v, index % v.len())
    }
}

fn wrapped_set(v: &mut Vec<u8>, index: usize, b: u8)
    ensures
        final(v)@ == wrapped_store(old(v)@, index as int, b),
{
    let len = v.len();
    if len != 0 {
        set_byte(v, index % len, b);
    }
}

impl MMC1 {
    /// Builds the mapper from a ROM image: CHR RAM of 128 KiB when the image has
    /// no CHR data, the image's CHR data otherwise; PRG banking fixed high.
    pub fn from_ines_rom(rom: &INESRom) -> (r: MMC1)
        ensures
            r@ == MMC1View::power_on(*rom),
    {
        let chr_data = if rom.uses_chr_ram {
            let v = vec![0u8; 131072];
            assert(v@ =~= Seq::new(131072, |i: int| 0u8));
            v
        } else {
            rom.chr_data.clone()
        };
        let prg_ram = vec![0u8; 32768];
        assert(prg_ram@ =~= Seq::new(32768, |i: int| 0u8));
        MMC1 {
            cpu_bus: MMC1CPUBusInterceptor {
                prg_rom: rom.prg_data.clone(),
                control: MMC1ControlRegister(12),
                prg_bank_select: 0,
                prg_ram_bank_select: 0,
                prg_ram,
                shift_register: MMC1ShiftRegister::new(),
            },
            ppu_memory: MMC1PPUMemoryInterceptor {
                control: MMC1ControlRegister(12),
                chr_low_bank_select: 0,
                chr_high_bank_select: 0,
                chr_mem: chr_data,
                mirroring: rom.initial_mirroring(),
            },
        }
    }

    fn prg_index(&self, addr: u16) -> (r: Option<usize>)
        requires
            addr >= 0x8000,
        ensures
            r matches Some(i) ==> self@.prg_index(addr) == Some(i as int),
            r is None ==> self@.prg_index(addr) is None,
    {
        let mode = self.cpu_bus.control.prg_rom_bank_mode();
        let bank = self.cpu_bus.prg_bank_select as usize;
        if addr < 0xc000 {
            let offset = (addr - 0x8000) as usize;
            match mode {
                MMC1PRGROMBankMode::Full32KB1 | MMC1PRGROMBankMode::Full32KB2 => Some(
                    0x8000 * bank + offset,
                ),
                MMC1PRGROMBankMode::FixedLow => Some(offset),
                MMC1PRGROMBankMode::FixedHigh => Some(0x4000 * bank + offset),
            }
        } else {
            let offset = (addr - 0xc000) as usize;
            match mode {
                MMC1PRGROMBankMode::Full32KB1 | MMC1PRGROMBankMode::Full32KB2 => Some(
                    0x8000 * bank + offset + 0x2000,
                ),
                MMC1PRGROMBankMode::FixedLow => Some(0x4000 * bank + offset),
                MMC1PRGROMBankMode::FixedHigh => {
                    let len = self.cpu_bus.prg_rom.len();
                    if len < 0x4000 {
                        None
                    } else {
                        Some(len - 0x4000 + offset)
                    }
                },
            }
        }
    }

    fn chr_index(&self, addr: u16) -> (r: usize)
        requires
            addr < 0x2000,
        ensures
            r as int == self@.chr_index(addr),
    {
        let low = self.ppu_memory.chr_low_bank_select as usize;
        let high = self.ppu_memory.chr_high_bank_select as usize;
        match self.ppu_memory.control.chr_rom_bank_mode() {
            MMC1CHRROMBankMode::Full8KB => if addr < 0x1000 {
                low * 8192 + addr as usize
            } else {
                low * 8192 + (addr - 0x1000) as usize + 0x1000
            },
            MMC1CHRROMBankMode::Split4KB => if addr < 0x1000 {
                low * 4096 + addr as usize
            } else {
                high * 4096 + (addr - 0x1000) as usize
            },
        }
    }

    /// Answers a CPU read.
    pub fn cpu_read(&self, addr: u16) -> (r: InterceptorResult<Option<u8>>)
        ensures
            r == self@.cpu_read(addr),
    {
        if addr < 0x6000 {
            InterceptorResult::NotIntercepted
        } else if addr < 0x8000 {
            let index = 0x2000 * (self.cpu_bus.prg_ram_bank_select as usize) + (addr - 0x6000) as usize;
            InterceptorResult::Intercepted(wrapped_get(&self.cpu_bus.prg_ram, index))
        } else {
            match self.prg_index(addr) {
                Some(i) => InterceptorResult::Intercepted(wrapped_get(&self.cpu_bus.prg_rom, i)),
                None => InterceptorResult::Intercepted(None),
            }
        }
    }

    /// Handles a CPU write; returns whether the mapper took it.
    pub fn cpu_write(&mut self, addr: u16, value: u8) -> (r: InterceptorResult<()>)
        ensures
            final(self)@ == old(self)@.cpu_write(addr, value),
            r == (if addr < 0x6000 {
                InterceptorResult::NotIntercepted
            } else {
                InterceptorResult::Intercepted(())
            }),
    {
        if addr < 0x6000 {
            InterceptorResult::NotIntercepted
        } else if addr < 0x8000 {
            let index = 0x2000 * (self.cpu_bus.prg_ram_bank_select as usize) + (addr - 0x6000) as usize;
            wrapped_set(&mut self.cpu_bus.prg_ram, index, value);
            InterceptorResult::Intercepted(())
        } else {
            if value >= 128 {
                self.cpu_bus.shift_register.reset();
                self.cpu_bus.control.set_prg_rom_bank_mode_fixed_high();
            } else {
                let result = self.cpu_bus.shift_register.write_bit(value % 2 == 1);
                if let Some(data) = result {
                    if addr < 0xa000 {
                        self.cpu_bus.control = MMC1ControlRegister(data);
                        self.ppu_memory.control = self.cpu_bus.control;
                        self.ppu_memory.mirroring = match self.cpu_bus.control.mirroring() {
                            MMC1MirroringMode::SingleScreenLow
                            | MMC1MirroringMode::SingleScreenHigh => CartridgeMirroring::SingleScreen,
                            MMC1MirroringMode::Vertical => CartridgeMirroring::Vertical,
                            MMC1MirroringMode::Horizontal => CartridgeMirroring::Horizontal,
                        };
                    } else if addr < 0xc000 {
                        self.ppu_memory.chr_low_bank_select = data;
                    } else if addr < 0xe000 {
                        self.ppu_memory.chr_high_bank_select = data;
                    } else {
                        self.cpu_bus.prg_bank_select = data % 16;
                    }
                }
            }
            InterceptorResult::Intercepted(())
        }
    }

    /// Answers a PPU read.
    pub fn ppu_read(&self, addr: u16) -> (r: InterceptorResult<Option<u8>>)
        ensures
            r == self@.ppu_read(addr),
    {
        if addr < 0x2000 {
            let index = self.chr_index(addr);
            InterceptorResult::Intercepted(wrapped_get(&self.ppu_memory.chr_mem, index))
        } else {
            InterceptorResult::NotIntercepted
        }
    }

    /// Handles a PPU write; returns whether the mapper took it.
    pub fn ppu_write(&mut self, addr: u16, value: u8) -> (r: InterceptorResult<()>)
        ensures
            final(self)@ == old(self)@.ppu_write(addr, value),
            r == (if addr < 0x2000 {
                InterceptorResult::Intercepted(())
            } else {
                InterceptorResult::NotIntercepted
            }),
    {
        if addr < 0x2000 {
            let index = self.chr_index(addr);
            wrapped_set(&mut self.ppu_memory.chr_mem, index, value);
            InterceptorResult::Intercepted(())
        } else {
            InterceptorResult::NotIntercepted
        }
    }
}


/// PRG RAM (0x6000 to 0x7FFF) reads back the byte last written to the same
/// address.
pub proof fn lemma_mmc1_prg_ram_write_read(m: MMC1View, addr: u16, value: u8)
    requires
        0x6000 <= addr < 0x8000,
        m.prg_ram.len() > 0,
    ensures
        m.cpu_write(addr, value).cpu_read(addr) == InterceptorResult::Intercepted(Some(value)),
{
    let i = m.prg_ram_index(addr) % (m.prg_ram.len() as int);
    assert(0 <= i < m.prg_ram.len());
}

} // verus!
