use vstd::prelude::*;

use super::cartridge::{byte_at, get_byte, set_byte, store_at, CartridgeMirroring, InterceptorResult};
use crate::nes::ines_rom::{initial_mirroring_spec, INESRom};

verus! {

/// The bank register that the next write to an odd address in 0x8000..0x9fff sets.
#[derive(Debug, PartialEq, Eq, Clone, Copy, Structural)]
pub enum MMC3TargetBank {
    R0,
    R1,
    R2,
    R3,
    R4,
    R5,
    R6,
    R7,
}

/// The register number of a target bank.
pub open spec fn target_bank_bits(b: MMC3TargetBank) -> u8 {
    match b {
        MMC3TargetBank::R0 => 0,
        MMC3TargetBank::R1 => 1,
        MMC3TargetBank::R2 => 2,
        MMC3TargetBank::R3 => 3,
        MMC3TargetBank::R4 => 4,
        MMC3TargetBank::R5 => 5,
        MMC3TargetBank::R6 => 6,
        MMC3TargetBank::R7 => 7,
    }
}

/// The target bank a register number names; numbers from 7 up name R7.
pub open spec fn target_bank_from(v: u8) -> MMC3TargetBank {
    if v == 0 {
        MMC3TargetBank::R0
    } else if v == 1 {
        MMC3TargetBank::R1
    } else if v == 2 {
        MMC3TargetBank::R2
    } else if v == 3 {
        MMC3TargetBank::R3
    } else if v == 4 {
        MMC3TargetBank::R4
    } else if v == 5 {
        MMC3TargetBank::R5
    } else if v == 6 {
        MMC3TargetBank::R6
    } else {
        MMC3TargetBank::R7
    }
}

impl MMC3TargetBank {
    pub fn into_bits(self) -> (r: u8)
        ensures
            r == target_bank_bits(self),
    {
        match self {
            MMC3TargetBank::R0 => 0,
            MMC3TargetBank::R1 => 1,
            MMC3TargetBank::R2 => 2,
            MMC3TargetBank::R3 => 3,
            MMC3TargetBank::R4 => 4,
            MMC3TargetBank::R5 => 5,
            MMC3TargetBank::R6 => 6,
            MMC3TargetBank::R7 => 7,
        }
    }

    pub fn from_bits(value: u8) -> (r: MMC3TargetBank)
        ensures
            r == target_bank_from(value),
    {
        match value {
            0 => MMC3TargetBank::R0,
            1 => MMC3TargetBank::R1,
            2 => MMC3TargetBank::R2,
            3 => MMC3TargetBank::R3,
            4 => MMC3TargetBank::R4,
            5 => MMC3TargetBank::R5,
            6 => MMC3TargetBank::R6,
            _ => MMC3TargetBank::R7,
        }
    }
}

/// Where a window of memory points: at the bank a mapping register holds, or at
/// a bank counted from the start (positive) or the end (zero or negative) of the
/// data. The second field is the bank size in bytes.
#[derive(Debug, Clone, Copy, PartialEq, Eq, Structural)]
pub enum MMC3BankSpecifier {
    Mapped(u8, usize),
    Relative(i8, usize),
}

/// The bank size of a specifier.
pub open spec fn bank_size(b: MMC3BankSpecifier) -> usize {
    match b {
        MMC3BankSpecifier::Mapped(_, size) => size,
        MMC3BankSpecifier::Relative(_, size) => size,
    }
}

/// The bank a specifier selects, as an integer; negative when counted back
/// past the start of the data.
pub open spec fn bank_index_spec(b: MMC3BankSpecifier, mapping: Seq<u8>, data_len: nat) -> int {
    match b {
        MMC3BankSpecifier::Mapped(index, _) => mapping[index as int] as int,
        MMC3BankSpecifier::Relative(offset, size) => {
            if offset > 0 {
                offset as int
            } else {
                data_len as int / size as int + offset as int
            }
        },
    }
}

/// An integer taken modulo the size of `usize`, as the cast of a negative index
/// does.
pub open spec fn wrap_usize(i: int) -> int {
    if i >= 0 {
        i
    } else {
        i + usize::MAX + 1
    }
}

/// Whether a specifier can be resolved against `mapping`: for a mapped bank, a
/// register that exists; for a bank counted back from the end of the data
/// (offset 0 or below), a nonzero bank size to count banks with.
pub open spec fn resolvable(b: MMC3BankSpecifier, mapping: Seq<u8>) -> bool {
    &&& (b matches MMC3BankSpecifier::Mapped(index, _) ==> (index as int) < mapping.len())
    &&& (b matches MMC3BankSpecifier::Relative(offset, size) ==> (offset <= 0 ==> size > 0))
}

/// The data offset of byte `offset` of the bank a specifier selects; -1 (no
/// offset) for a bank counted back past the start of the data.
pub open spec fn banked_addr(b: MMC3BankSpecifier, mapping: Seq<u8>, data_len: nat, offset: u16) -> int {
    let idx = bank_index_spec(b, mapping, data_len);
    if idx < 0 {
        -1
    } else {
        idx * bank_size(b) as int + offset as int
    }
}

/// The byte at `offset` in the selected bank; open bus where it falls outside the data.
pub open spec fn banked_byte(b: MMC3BankSpecifier, mapping: Seq<u8>, data: Seq<u8>, offset: u16) -> Option<u8> {
    byte_at(data, banked_addr(b, mapping, data.len(), offset))
}

/// The data after `value` is stored at `offset` in the selected bank; unchanged
/// where that falls outside the data.
pub open spec fn banked_store(
    b: MMC3BankSpecifier,
    mapping: Seq<u8>,
    data: Seq<u8>,
    offset: u16,
    value: u8,
) -> Seq<u8> {
    store_at(data, banked_addr(b, mapping, data.len(), offset), value)
}

impl MMC3BankSpecifier {
    /// The bank this specifier selects. A bank counted back past the start of
    /// the data wraps around, as a cast to `usize` does.
    pub fn resolve_bank_index(&self, mapping: &[u8], data: &Vec<u8>) -> (r: usize)
        requires
            resolvable(*self, mapping@),
        ensures
            r as int == wrap_usize(bank_index_spec(*self, mapping@, data@.len())),
    {
        match self {
            MMC3BankSpecifier::Mapped(index, _) => mapping[*index as usize] as usize,
            MMC3BankSpecifier::Relative(bank_offset, bank_size) => {
                if *bank_offset > 0 {
                    *bank_offset as usize
                } else {
                    let bank_count = data.len() / *bank_size;
                    let back: usize = (0i16 - *bank_offset as i16) as usize;
                    if bank_count >= back {
                        bank_count - back
                    } else {
                        usize::MAX - (back - bank_count) + 1
                    }
                }
            },
        }
    }

    /// The data offset of byte `offset` of the selected bank.
    pub fn resolve_addr(&self, mapping: &[u8], data: &Vec<u8>, offset: u16) -> (r: usize)
        requires
            resolvable(*self, mapping@),
            wrap_usize(bank_index_spec(*self, mapping@, data@.len())) * bank_size(*self) as int
                + offset as int <= usize::MAX,
        ensures
            r as int == wrap_usize(bank_index_spec(*self, mapping@, data@.len())) * bank_size(
                *self,
            ) as int + offset as int,
    {
        let bank_size = match self {
            MMC3BankSpecifier::Mapped(_, size) => *size,
            MMC3BankSpecifier::Relative(_, size) => *size,
        };
        let bank_index = self.resolve_bank_index(mapping, data);
        proof {
            vstd::arithmetic::mul::lemma_mul_nonnegative(bank_index as int, bank_size as int);
        }
        bank_index * bank_size + offset as usize
    }
}

/// The index in `data` of byte `offset` of the selected bank, where it lies in the data.
fn banked_index(bank: MMC3BankSpecifier, mapping: &[u8], data: &Vec<u8>, offset: u16) -> (r: Option<usize>)
    requires
        resolvable(bank, mapping@),
    ensures
        match r {
            Some(i) => i as int == banked_addr(bank, mapping@, data@.len(), offset) && i < data@.len(),
            None => !(0 <= banked_addr(bank, mapping@, data@.len(), offset) < data@.len()),
        },
{
    let size = match bank {
        MMC3BankSpecifier::Mapped(_, size) => size,
        MMC3BankSpecifier::Relative(_, size) => size,
    };
    let len = data.len();
    if let MMC3BankSpecifier::Relative(o, s) = bank {
        if o <= 0 {
            let back: usize = (0i16 - o as i16) as usize;
            if data.len() / s < back {
                return None;
            }
        }
    }
    let idx = bank.resolve_bank_index(mapping, data);
    assert(idx as int == bank_index_spec(bank, mapping@, data@.len()));
    assert(size == bank_size(bank));
    match idx.checked_mul(size) {
        Some(p) => {
            assert(p as int == idx as int * size as int);
            match p.checked_add(offset as usize) {
                Some(a) => {
                    assert(bank_index_spec(bank, mapping@, data@.len()) >= 0);
                    assert(a as int == banked_addr(bank, mapping@, data@.len(), offset));
                    if a < len {
                        Some(a)
                    } else {
                        None
                    }
                },
                None => None,
            }
        },
        None => {
            assert(idx as int * size as int > usize::MAX);
            None
        },
    }
}

/// The PRG ROM bank-arrangement mode: which 8 KiB window is fixed to the
/// second-to-last bank.
#[derive(Debug, PartialEq, Eq, Clone, Copy, Structural)]
pub enum MMC3PRGROMBankMode {
    FixedHigh,
    FixedLow,
}

impl MMC3PRGROMBankMode {
    pub fn into_bits(self) -> (r: u8)
        ensures
            r == (if self == MMC3PRGROMBankMode::FixedHigh {
                0u8
            } else {
                1u8
            }),
    {
        match self {
            MMC3PRGROMBankMode::FixedHigh => 0,
            MMC3PRGROMBankMode::FixedLow => 1,
        }
    }

    pub fn from_bits(value: u8) -> (r: MMC3PRGROMBankMode)
        ensures
            r == (if value == 0 {
                MMC3PRGROMBankMode::FixedHigh
            } else {
                MMC3PRGROMBankMode::FixedLow
            }),
    {
        match value {
            0 => MMC3PRGROMBankMode::FixedHigh,
            _ => MMC3PRGROMBankMode::FixedLow,
        }
    }
}

/// The bank-select register: target bank in bits 0-2, PRG mode in bit 6, CHR
/// A12 inversion in bit 7.
#[derive(Debug, Clone, Copy, PartialEq, Eq, Structural)]
pub struct MMC3BankSelectRegister(pub u8);

impl MMC3BankSelectRegister {
    pub fn target_bank(&self) -> (r: MMC3TargetBank)
        ensures
            r == target_bank_from(self.0 & 7),
    {
        MMC3TargetBank::from_bits(self.0 & 7)
    }

    pub fn prg_rom_bank_mode(&self) -> (r: MMC3PRGROMBankMode)
        ensures
            r == (if (self.0 >> 6u8) & 1 == 0 {
                MMC3PRGROMBankMode::FixedHigh
            } else {
                MMC3PRGROMBankMode::FixedLow
            }),
    {
        MMC3PRGROMBankMode::from_bits((self.0 >> 6u8) & 1)
    }

    pub fn chr_a12_inversion(&self) -> (r: bool)
        ensures
            r == ((self.0 >> 7u8) == 1),
    {
        (self.0 >> 7u8) == 1
    }
}

/// MMC3's CPU side: PRG ROM and RAM, the bank registers it owns, and the
/// scanline IRQ counter.
#[derive(Debug, Clone)]
pub struct MMC3CPUBusInterceptor {
    pub prg_rom: Vec<u8>,
    pub prg_ram: Vec<u8>,
    pub four_screen_vram: bool,
    pub prg_rom_bank_mode: MMC3PRGROMBankMode,
    pub selected_bank: MMC3TargetBank,
    pub prg_rom_bank_mapping: [u8; 2],
    pub irq_enabled: bool,
    pub irq_reload: u8,
    pub irq_counter: u8,
    pub pending_irq: bool,
    pub irq_reload_pending: bool,
}

/// MMC3's PPU side: CHR memory in six switchable windows.
#[derive(Debug, Clone)]
pub struct MMC3PPUMemoryInterceptor {
    pub chr_data: Vec<u8>,
    pub chr_a12_inversion: bool,
    pub chr_bank_mapping: [u8; 6],
    pub mirroring: CartridgeMirroring,
}

/// Mapper 4.
#[derive(Debug, Clone)]
pub struct MMC3 {
    pub cpu_bus: MMC3CPUBusInterceptor,
    pub ppu_memory: MMC3PPUMemoryInterceptor,
}

/// The 8 KiB PRG window that register R6 selects.
pub open spec fn prg_r6() -> MMC3BankSpecifier {
    MMC3BankSpecifier::Mapped(0, 8192)
}

/// The 8 KiB PRG window that register R7 selects.
pub open spec fn prg_r7() -> MMC3BankSpecifier {
    MMC3BankSpecifier::Mapped(1, 8192)
}

/// The last 8 KiB PRG bank.
pub open spec fn prg_last() -> MMC3BankSpecifier {
    MMC3BankSpecifier::Relative(-1i8, 8192)
}

/// The second-to-last 8 KiB PRG bank.
pub open spec fn prg_second_last() -> MMC3BankSpecifier {
    MMC3BankSpecifier::Relative(-2i8, 8192)
}

/// Which PRG bank a CPU address from 0x8000 reads, and its offset in the bank.
pub open spec fn prg_window(mode: MMC3PRGROMBankMode, addr: u16) -> (MMC3BankSpecifier, u16) {
    if addr < 0xa000 {
        (
            if mode == MMC3PRGROMBankMode::FixedHigh {
                prg_r6()
            } else {
                prg_second_last()
            },
            (addr - 0x8000) as u16,
        )
    } else if addr < 0xc000 {
        (prg_r7(), (addr - 0xa000) as u16)
    } else if addr < 0xe000 {
        (
            if mode == MMC3PRGROMBankMode::FixedHigh {
                prg_second_last()
            } else {
                prg_r6()
            },
            (addr - 0xc000) as u16,
        )
    } else {
        (prg_last(), (addr - 0xe000) as u16)
    }
}

/// Which 1 KiB-granular CHR bank a PPU address below 0x2000 reads, and its
/// offset in the bank: R0 and R1 cover 2 KiB each, R2 to R5 1 KiB each, and the
/// inversion bit swaps the two halves of the pattern space.
pub open spec fn chr_window(inversion: bool, addr: u16) -> (MMC3BankSpecifier, u16) {
    if !inversion {
        if addr < 0x0800 {
            (MMC3BankSpecifier::Mapped(0, 1024), addr)
        } else if addr < 0x1000 {
            (MMC3BankSpecifier::Mapped(1, 1024), (addr - 0x0800) as u16)
        } else if addr < 0x1400 {
            (MMC3BankSpecifier::Mapped(2, 1024), (addr - 0x1000) as u16)
        } else if addr < 0x1800 {
            (MMC3BankSpecifier::Mapped(3, 1024), (addr - 0x1400) as u16)
        } else if addr < 0x1c00 {
            (MMC3BankSpecifier::Mapped(4, 1024), (addr - 0x1800) as u16)
        } else {
            (MMC3BankSpecifier::Mapped(5, 1024), (addr - 0x1c00) as u16)
        }
    } else {
        if addr < 0x0400 {
            (MMC3BankSpecifier::Mapped(2, 1024), addr)
        } else if addr < 0x0800 {
            (MMC3BankSpecifier::Mapped(3, 1024), (addr - 0x0400) as u16)
        } else if addr < 0x0c00 {
            (MMC3BankSpecifier::Mapped(4, 1024), (addr - 0x0800) as u16)
        } else if addr < 0x1000 {
            (MMC3BankSpecifier::Mapped(5, 1024), (addr - 0x0c00) as u16)
        } else if addr < 0x1800 {
            (MMC3BankSpecifier::Mapped(0, 1024), (addr - 0x1000) as u16)
        } else {
            (MMC3BankSpecifier::Mapped(1, 1024), (addr - 0x1800) as u16)
        }
    }
}

fn prg_window_exec(mode: MMC3PRGROMBankMode, addr: u16) -> (r: (MMC3BankSpecifier, u16))
    requires
        addr >= 0x8000,
    ensures
        r == prg_window(mode, addr),
{
    let fixed_high = match mode {
        MMC3PRGROMBankMode::FixedHigh => true,
        MMC3PRGROMBankMode::FixedLow => false,
    };
    if addr < 0xa000 {
        (
            if fixed_high {
                MMC3BankSpecifier::Mapped(0, 8192)
            } else {
                MMC3BankSpecifier::Relative(-2, 8192)
            },
            addr - 0x8000,
        )
    } else if addr < 0xc000 {
        (MMC3BankSpecifier::Mapped(1, 8192), addr - 0xa000)
    } else if addr < 0xe000 {
        (
            if fixed_high {
                MMC3BankSpecifier::Relative(-2, 8192)
            } else {
                MMC3BankSpecifier::Mapped(0, 8192)
            },
            addr - 0xc000,
        )
    } else {
        (MMC3BankSpecifier::Relative(-1, 8192), addr - 0xe000)
    }
}

fn chr_window_exec(inversion: bool, addr: u16) -> (r: (MMC3BankSpecifier, u16))
    requires
        addr < 0x2000,
    ensures
        r == chr_window(inversion, addr),
{
    if !inversion {
        if addr < 0x0800 {
            (MMC3BankSpecifier::Mapped(0, 1024), addr)
        } else if addr < 0x1000 {
            (MMC3BankSpecifier::Mapped(1, 1024), addr - 0x0800)
        } else if addr < 0x1400 {
            (MMC3BankSpecifier::Mapped(2, 1024), addr - 0x1000)
        } else if addr < 0x1800 {
            (MMC3BankSpecifier::Mapped(3, 1024), addr - 0x1400)
        } else if addr < 0x1c00 {
            (MMC3BankSpecifier::Mapped(4, 1024), addr - 0x1800)
        } else {
            (MMC3BankSpecifier::Mapped(5, 1024), addr - 0x1c00)
        }
    } else {
        if addr < 0x0400 {
            (MMC3BankSpecifier::Mapped(2, 1024), addr)
        } else if addr < 0x0800 {
            (MMC3BankSpecifier::Mapped(3, 1024), addr - 0x0400)
        } else if addr < 0x0c00 {
            (MMC3BankSpecifier::Mapped(4, 1024), addr - 0x0800)
        } else if addr < 0x1000 {
            (MMC3BankSpecifier::Mapped(5, 1024), addr - 0x0c00)
        } else if addr < 0x1800 {
            (MMC3BankSpecifier::Mapped(0, 1024), addr - 0x1000)
        } else {
            (MMC3BankSpecifier::Mapped(1, 1024), addr - 0x1800)
        }
    }
}

/// The contents of an MMC3 cartridge.
#[verifier::ext_equal]
pub struct MMC3View {
    pub prg_rom: Seq<u8>,
    pub prg_ram: Seq<u8>,
    pub four_screen_vram: bool,
    pub prg_rom_bank_mode: MMC3PRGROMBankMode,
    pub selected_bank: MMC3TargetBank,
    pub prg_mapping: Seq<u8>,
    pub irq_enabled: bool,
    pub irq_reload: u8,
    pub irq_counter: u8,
    pub pending_irq: bool,
    pub irq_reload_pending: bool,
    pub chr_data: Seq<u8>,
    pub chr_a12_inversion: bool,
    pub chr_mapping: Seq<u8>,
    pub mirroring: CartridgeMirroring,
}

impl View for MMC3 {
    type V = MMC3View;

    open spec fn view(&self) -> MMC3View {
        MMC3View {
            prg_rom: self.cpu_bus.prg_rom@,
            prg_ram: self.cpu_bus.prg_ram@,
            four_screen_vram: self.cpu_bus.four_screen_vram,
            prg_rom_bank_mode: self.cpu_bus.prg_rom_bank_mode,
            selected_bank: self.cpu_bus.selected_bank,
            prg_mapping: self.cpu_bus.prg_rom_bank_mapping@,
            irq_enabled: self.cpu_bus.irq_enabled,
            irq_reload: self.cpu_bus.irq_reload,
            irq_counter: self.cpu_bus.irq_counter,
            pending_irq: self.cpu_bus.pending_irq,
            irq_reload_pending: self.cpu_bus.irq_reload_pending,
            chr_data: self.ppu_memory.chr_data@,
            chr_a12_inversion: self.ppu_memory.chr_a12_inversion,
            chr_mapping: self.ppu_memory.chr_bank_mapping@,
            mirroring: self.ppu_memory.mirroring,
        }
    }
}

impl MMC3View {
    /// The cartridge as a ROM image powers it on.
    pub open spec fn power_on(rom: INESRom) -> MMC3View {
        MMC3View {
            prg_rom: rom.prg_data@,
            prg_ram: Seq::new(8192, |i: int| 0u8),
            four_screen_vram: rom.four_screen_vram,
            prg_rom_bank_mode: MMC3PRGROMBankMode::FixedHigh,
            selected_bank: MMC3TargetBank::R0,
            prg_mapping: seq![0u8, 0u8],
            irq_enabled: false,
            irq_reload: 0,
            irq_counter: 0,
            pending_irq: false,
            irq_reload_pending: false,
            chr_data: if rom.uses_chr_ram {
                Seq::new(262144, |i: int| 0u8)
            } else {
                rom.chr_data@
            },
            chr_a12_inversion: false,
            chr_mapping: seq![0u8, 0u8, 0u8, 0u8, 0u8, 0u8],
            mirroring: initial_mirroring_spec(rom),
        }
    }

    /// What the mapper answers to a CPU read: PRG RAM from 0x6000, the four
    /// 8 KiB PRG windows from 0x8000.
    pub open spec fn cpu_read(self, addr: u16) -> InterceptorResult<Option<u8>> {
        if addr < 0x6000 {
            InterceptorResult::NotIntercepted
        } else if addr < 0x8000 {
            InterceptorResult::Intercepted(byte_at(self.prg_ram, addr as int - 0x6000))
        } else {
            let (bank, offset) = prg_window(self.prg_rom_bank_mode, addr);
            InterceptorResult::Intercepted(banked_byte(bank, self.prg_mapping, self.prg_rom, offset))
        }
    }

    /// The cartridge after a write to an odd address in 0x8000..0x9fff: the
    /// selected bank register takes the value (R0 and R1 with bit 0 cleared).
    pub open spec fn set_bank_register(self, value: u8) -> MMC3View {
        match self.selected_bank {
            MMC3TargetBank::R0 => MMC3View { chr_mapping: self.chr_mapping.update(0, value & 0xfe), ..self },
            MMC3TargetBank::R1 => MMC3View { chr_mapping: self.chr_mapping.update(1, value & 0xfe), ..self },
            MMC3TargetBank::R2 => MMC3View { chr_mapping: self.chr_mapping.update(2, value), ..self },
            MMC3TargetBank::R3 => MMC3View { chr_mapping: self.chr_mapping.update(3, value), ..self },
            MMC3TargetBank::R4 => MMC3View { chr_mapping: self.chr_mapping.update(4, value), ..self },
            MMC3TargetBank::R5 => MMC3View { chr_mapping: self.chr_mapping.update(5, value), ..self },
            MMC3TargetBank::R6 => MMC3View { prg_mapping: self.prg_mapping.update(0, value), ..self },
            MMC3TargetBank::R7 => MMC3View { prg_mapping: self.prg_mapping.update(1, value), ..self },
        }
    }

    /// The cartridge after a CPU write. From 0x8000 each 8 KiB range holds two
    /// registers, told apart by the lowest address bit: bank select and bank
    /// data; mirroring and (ignored) RAM protection; IRQ reload value and IRQ
    /// counter clear; IRQ disable-and-acknowledge and IRQ enable.
    pub open spec fn cpu_write(self, addr: u16, value: u8) -> MMC3View {
        let even = addr % 2 == 0;
        if addr < 0x6000 {
            self
        } else if addr < 0x8000 {
            MMC3View { prg_ram: store_at(self.prg_ram, addr as int - 0x6000, value), ..self }
        } else if addr < 0xa000 {
            if even {
                MMC3View {
                    selected_bank: target_bank_from(value & 7),
                    prg_rom_bank_mode: if (value >> 6u8) & 1 == 0 {
                        MMC3PRGROMBankMode::FixedHigh
                    } else {
                        MMC3PRGROMBankMode::FixedLow
                    },
                    chr_a12_inversion: (value >> 7u8) == 1,
                    ..self
                }
            } else {
                self.set_bank_register(value)
            }
        } else if addr < 0xc000 {
            if even && !self.four_screen_vram {
                MMC3View {
                    mirroring: if value & 1 == 0 {
                        CartridgeMirroring::Vertical
                    } else {
                        CartridgeMirroring::Horizontal
                    },
                    ..self
                }
            } else {
                self
            }
        } else if addr < 0xe000 {
            if even {
                MMC3View { irq_reload: value, ..self }
            } else {
                MMC3View { irq_reload_pending: true, irq_counter: 0, ..self }
            }
        } else {
            if even {
                MMC3View { irq_enabled: false, pending_irq: false, ..self }
            } else {
                MMC3View { irq_enabled: true, ..self }
            }
        }
    }

    /// What the mapper answers to a PPU read: CHR memory below 0x2000.
    pub open spec fn ppu_read(self, addr: u16) -> InterceptorResult<Option<u8>> {
        if addr < 0x2000 {
            let (bank, offset) = chr_window(self.chr_a12_inversion, addr);
            InterceptorResult::Intercepted(banked_byte(bank, self.chr_mapping, self.chr_data, offset))
        } else {
            InterceptorResult::NotIntercepted
        }
    }

    /// The cartridge after a PPU write: CHR memory takes writes below 0x2000.
    pub open spec fn ppu_write(self, addr: u16, value: u8) -> MMC3View {
        if addr < 0x2000 {
            let (bank, offset) = chr_window(self.chr_a12_inversion, addr);
            MMC3View {
                chr_data: banked_store(bank, self.chr_mapping, self.chr_data, offset, value),
                ..self
            }
        } else {
            self
        }
    }

    /// The cartridge after one scanline clock of the IRQ counter: a counter at
    /// zero, or one asked to reload, takes the reload value; otherwise it counts
    /// down. An enabled IRQ becomes pending when the counter is then zero.
    pub open spec fn clock_irq_counter(self) -> MMC3View {
        let reload = self.irq_counter == 0 || self.irq_reload_pending;
        let counter: u8 = if reload {
            self.irq_reload
        } else {
            (self.irq_counter - 1) as u8
        };
        MMC3View {
            irq_counter: counter,
            irq_reload_pending: if reload {
                false
            } else {
                self.irq_reload_pending
            },
            pending_irq: self.pending_irq || (self.irq_enabled && counter == 0),
            ..self
        }
    }
}

impl MMC3CPUBusInterceptor {
    /// The byte at `offset` in a PRG bank; open bus outside the ROM.
    fn read_banked(&self, bank: MMC3BankSpecifier, offset: u16) -> (r: Option<u8>)
        requires
            resolvable(bank, self.prg_rom_bank_mapping@),
        ensures
            r == banked_byte(bank, self.prg_rom_bank_mapping@, self.prg_rom@, offset),
    {
        match banked_index(bank, self.prg_rom_bank_mapping.as_slice(), &self.prg_rom, offset) {
            Some(i) => Some(self.prg_rom[i]),
            None => None,
        }
    }
}

impl MMC3PPUMemoryInterceptor {
    /// The byte at `offset` in a CHR bank; open bus outside the CHR memory.
    fn read_banked(&self, bank: MMC3BankSpecifier, offset: u16) -> (r: Option<u8>)
        requires
            resolvable(bank, self.chr_bank_mapping@),
        ensures
            r == banked_byte(bank, self.chr_bank_mapping@, self.chr_data@, offset),
    {
        match banked_index(bank, self.chr_bank_mapping.as_slice(), &self.chr_data, offset) {
            Some(i) => Some(self.chr_data[i]),
            None => None,
        }
    }

    /// Stores `value` at `offset` in a CHR bank; ignored outside the CHR memory.
    fn write_banked(&mut self, bank: MMC3BankSpecifier, offset: u16, value: u8)
        requires
            resolvable(bank, old(self).chr_bank_mapping@),
        ensures
            final(self).chr_data@ == banked_store(
                bank,
                old(self).chr_bank_mapping@,
                old(self).chr_data@,
                offset,
                value,
            ),
            final(self).chr_bank_mapping == old(self).chr_bank_mapping,
            final(self).chr_a12_inversion == old(self).chr_a12_inversion,
            final(self).mirroring == old(self).mirroring,
    {
        match banked_index(bank, self.chr_bank_mapping.as_slice(), &self.chr_data, offset) {
            Some(i) => {
                self.chr_data.set(i, value);
            },
            None => {},
        }
    }
}

impl MMC3 {
    /// Builds the mapper from a ROM image: 256 KiB of zeroed CHR RAM where the
    /// image has none, registers cleared.
    pub fn from_ines_rom(rom: &INESRom) -> (r: MMC3)
        ensures
            r@ == MMC3View::power_on(*rom),
    {
        let initial_mirroring = rom.initial_mirroring();
        let chr_data = if rom.uses_chr_ram {
            let v = vec![0u8; 262144];
            assert(v@ =~= Seq::new(262144, |i: int| 0u8));
            v
        } else {
            rom.chr_data.clone()
        };
        let prg_ram = vec![0u8; 8192];
        assert(prg_ram@ =~= Seq::new(8192, |i: int| 0u8));
        let prg_map: [u8; 2] = [0u8, 0u8];
        let chr_map: [u8; 6] = [0u8, 0u8, 0u8, 0u8, 0u8, 0u8];
        assert(prg_map@ =~= seq![0u8, 0u8]);
        assert(chr_map@ =~= seq![0u8, 0u8, 0u8, 0u8, 0u8, 0u8]);
        MMC3 {
            cpu_bus: MMC3CPUBusInterceptor {
                prg_rom: rom.prg_data.clone(),
                prg_ram,
                four_screen_vram: rom.four_screen_vram,
                prg_rom_bank_mode: MMC3PRGROMBankMode::FixedHigh,
                selected_bank: MMC3TargetBank::R0,
                prg_rom_bank_mapping: prg_map,
                irq_enabled: false,
                irq_reload: 0,
                irq_counter: 0,
                pending_irq: false,
                irq_reload_pending: false,
            },
            ppu_memory: MMC3PPUMemoryInterceptor {
                chr_data,
                chr_a12_inversion: false,
                chr_bank_mapping: chr_map,
                mirroring: initial_mirroring,
            },
        }
    }

    /// Answers a CPU read.
    pub fn cpu_read(&self, addr: u16) -> (r: InterceptorResult<Option<u8>>)
        ensures
            r == self@.cpu_read(addr),
    {
        if addr < 0x6000 {
            InterceptorResult::NotIntercepted
        } else if addr < 0x8000 {
            InterceptorResult::Intercepted(get_byte(&self.cpu_bus.prg_ram, (addr - 0x6000) as usize))
        } else {
            let (bank, offset) = prg_window_exec(self.cpu_bus.prg_rom_bank_mode, addr);
            InterceptorResult::Intercepted(self.cpu_bus.read_banked(bank, offset))
        }
    }

    /// Sets the bank register the last bank-select write chose.
    fn set_bank_register(&mut self, value: u8)
        ensures
            final(self)@ == old(self)@.set_bank_register(value),
    {
        match self.cpu_bus.selected_bank {
            MMC3TargetBank::R0 => self.ppu_memory.chr_bank_mapping[0] = value & 0xfe,
            MMC3TargetBank::R1 => self.ppu_memory.chr_bank_mapping[1] = value & 0xfe,
            MMC3TargetBank::R2 => self.ppu_memory.chr_bank_mapping[2] = value,
            MMC3TargetBank::R3 => self.ppu_memory.chr_bank_mapping[3] = value,
            MMC3TargetBank::R4 => self.ppu_memory.chr_bank_mapping[4] = value,
            MMC3TargetBank::R5 => self.ppu_memory.chr_bank_mapping[5] = value,
            MMC3TargetBank::R6 => self.cpu_bus.prg_rom_bank_mapping[0] = value,
            MMC3TargetBank::R7 => self.cpu_bus.prg_rom_bank_mapping[1] = value,
        }
    }

    /// Handles a CPU write; the mapper takes every write from 0x6000.
    pub fn cpu_write(&mut self, addr: u16, value: u8) -> (r: InterceptorResult<()>)
        ensures
            final(self)@ == old(self)@.cpu_write(addr, value),
            r == (if addr < 0x6000 {
                InterceptorResult::NotIntercepted
            } else {
                InterceptorResult::Intercepted(())
            }),
    {
        let even = addr % 2 == 0;
        if addr < 0x6000 {
            return InterceptorResult::NotIntercepted;
        } else if addr < 0x8000 {
            set_byte(&mut self.cpu_bus.prg_ram, (addr - 0x6000) as usize, value);
        } else if addr < 0xa000 {
            if even {
                let reg = MMC3BankSelectRegister(value);
                self.cpu_bus.selected_bank = reg.target_bank();
                self.cpu_bus.prg_rom_bank_mode = reg.prg_rom_bank_mode();
                self.ppu_memory.chr_a12_inversion = reg.chr_a12_inversion();
            } else {
                self.set_bank_register(value);
            }
        } else if addr < 0xc000 {
            if even && !self.cpu_bus.four_screen_vram {
                self.ppu_memory.mirroring =
                    if value & 1 == 0 {
                        CartridgeMirroring::Vertical
                    } else {
                        CartridgeMirroring::Horizontal
                    };
            }
        } else if addr < 0xe000 {
            if even {
                self.cpu_bus.irq_reload = value;
            } else {
                self.cpu_bus.irq_reload_pending = true;
                self.cpu_bus.irq_counter = 0;
            }
        } else {
            if even {
                self.cpu_bus.irq_enabled = false;
                self.cpu_bus.pending_irq = false;
            } else {
                self.cpu_bus.irq_enabled = true;
            }
        }
        InterceptorResult::Intercepted(())
    }

    /// Answers a PPU read.
    pub fn ppu_read(&self, addr: u16) -> (r: InterceptorResult<Option<u8>>)
        ensures
            r == self@.ppu_read(addr),
    {
        if addr < 0x2000 {
            let (bank, offset) = chr_window_exec(self.ppu_memory.chr_a12_inversion, addr);
            InterceptorResult::Intercepted(self.ppu_memory.read_banked(bank, offset))
        } else {
            InterceptorResult::NotIntercepted
        }
    }

    /// Handles a PPU write; returns whether the mapper took it.
    pub fn ppu_write(&mut self, addr: u16, value: u8) -> (r: InterceptorResult<()>)
        ensures
            final(self)@ == old(self)@.ppu_write(addr, value),
            r == (if addr < 0x2000 {
                InterceptorResult::Intercepted(())
            } else {
                InterceptorResult::NotIntercepted
            }),
    {
        if addr < 0x2000 {
            let (bank, offset) = chr_window_exec(self.ppu_memory.chr_a12_inversion, addr);
            self.ppu_memory.write_banked(bank, offset, value);
            InterceptorResult::Intercepted(())
        } else {
            InterceptorResult::NotIntercepted
        }
    }

    /// Clocks the scanline IRQ counter, as the PPU does at the start of each
    /// scanline.
    pub fn clock_irq_counter(&mut self)
        ensures
            final(self)@ == old(self)@.clock_irq_counter(),
    {
        if self.cpu_bus.irq_counter == 0 || self.cpu_bus.irq_reload_pending {
            self.cpu_bus.irq_counter = self.cpu_bus.irq_reload;
            self.cpu_bus.irq_reload_pending = false;
        } else {
            self.cpu_bus.irq_counter = self.cpu_bus.irq_counter - 1;
        }
        if self.cpu_bus.irq_enabled && self.cpu_bus.irq_counter == 0 {
            self.cpu_bus.pending_irq = true;
        }
    }

    /// Returns whether an IRQ is pending, and acknowledges it.
    pub fn poll_irq(&mut self) -> (r: bool)
        ensures
            r == old(self)@.pending_irq,
            final(self)@ == (MMC3View { pending_irq: false, ..old(self)@ }),
    {
        let pending_irq = self.cpu_bus.pending_irq;
        self.cpu_bus.pending_irq = false;
        pending_irq
    }
}

/// The cartridge after `k` scanline clocks.
pub open spec fn clocked(m: MMC3View, k: nat) -> MMC3View
    decreases k,
{
    if k == 0 {
        m
    } else {
        clocked(m, (k - 1) as nat).clock_irq_counter()
    }
}

/// After a counter reload is due, the counter takes the reload value `n` on the
/// next scanline and counts down one per scanline: with IRQs enabled, the IRQ
/// becomes pending on scanline `n + 1`, and not before (for `n` above zero).
pub proof fn lemma_mmc3_irq_after_reload(m: MMC3View, k: nat)
    requires
        m.irq_enabled,
        m.irq_counter == 0 || m.irq_reload_pending,
        m.irq_reload > 0,
        !m.pending_irq,
        1 <= k <= m.irq_reload as nat + 1,
    ensures
        clocked(m, k).irq_counter == m.irq_reload - (k - 1),
        !clocked(m, k).irq_reload_pending,
        clocked(m, k).pending_irq == (k == m.irq_reload as nat + 1),
        clocked(m, k).irq_enabled,
    decreases k,
{
    assert(clocked(m, 0) == m);
    if k > 1 {
        lemma_mmc3_irq_after_reload(m, (k - 1) as nat);
    }
}


/// PRG RAM (0x6000 to 0x7FFF, 8 KiB) reads back the byte last written to the
/// same address.
pub proof fn lemma_mmc3_prg_ram_write_read(m: MMC3View, addr: u16, value: u8)
    requires
        0x6000 <= addr < 0x8000,
        m.prg_ram.len() == 0x2000,
    ensures
        m.cpu_write(addr, value).cpu_read(addr) == InterceptorResult::Intercepted(Some(value)),
{
}

} // verus!
