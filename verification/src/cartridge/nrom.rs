use vstd::prelude::*;

use super::cartridge::{
    byte_at, get_byte, set_byte, store_at, tile, tile_spec, CartridgeMirroring,
    InterceptorResult,
};
use crate::nes::ines_rom::{initial_mirroring_spec, INESRom};

verus! {

/// NROM's CPU side: 8 KiB of PRG RAM at 0x6000 and 32 KiB of PRG ROM at 0x8000.
#[derive(Debug, Clone)]
pub struct NROMCPUBusInterceptor {
    pub prg_ram: Vec<u8>,
    pub prg_rom: Vec<u8>,
}

/// NROM's PPU side: 8 KiB of CHR memory for the pattern tables.
#[derive(Debug, Clone)]
pub struct NROMPPUMemoryInterceptor {
    pub chr_rom: Vec<u8>,
    pub mirroring: CartridgeMirroring,
}

/// Mapper 0: no bank switching.
#[derive(Debug, Clone)]
pub struct NROM {
    pub cpu_bus: NROMCPUBusInterceptor,
    pub ppu_memory: NROMPPUMemoryInterceptor,
}

/// The contents of an NROM cartridge.
#[verifier::ext_equal]
pub struct NROMView {
    pub prg_ram: Seq<u8>,
    pub prg_rom: Seq<u8>,
    pub chr_rom: Seq<u8>,
    pub mirroring: CartridgeMirroring,
}

impl View for NROM {
    type V = NROMView;

    open spec fn view(&self) -> NROMView {
        NROMView {
            prg_ram: self.cpu_bus.prg_ram@,
            prg_rom: self.cpu_bus.prg_rom@,
            chr_rom: self.ppu_memory.chr_rom@,
            mirroring: self.ppu_memory.mirroring,
        }
    }
}

impl NROMView {
    /// The cartridge as a ROM image powers it on.
    pub open spec fn power_on(rom: INESRom) -> NROMView {
        NROMView {
            prg_ram: Seq::new(8192, |i: int| 0u8),
            prg_rom: tile_spec(rom.prg_data@, 32768),
            chr_rom: tile_spec(rom.chr_data@, 8192),
            mirroring: initial_mirroring_spec(rom),
        }
    }

    /// What the mapper answers to a CPU read: PRG RAM (mirrored every 8 KiB) from
    /// 0x6000, PRG ROM from 0x8000.
    pub open spec fn cpu_read(self, addr: u16) -> InterceptorResult<Option<u8>> {
        if addr < 0x6000 {
            InterceptorResult::NotIntercepted
        } else if addr < 0x8000 {
            InterceptorResult::Intercepted(byte_at(self.prg_ram, addr as int % 8192))
        } else {
            InterceptorResult::Intercepted(byte_at(self.prg_rom, addr as int - 0x8000))
        }
    }

    /// The cartridge after a CPU write: PRG RAM takes it, ROM ignores it.
    pub open spec fn cpu_write(self, addr: u16, value: u8) -> NROMView {
        if 0x6000 <= addr < 0x8000 {
            NROMView { prg_ram: store_at(self.prg_ram, addr as int % 8192, value), ..self }
        } else {
            self
        }
    }

    /// What the mapper answers to a PPU read: CHR memory below 0x2000.
    pub open spec fn ppu_read(self, addr: u16) -> InterceptorResult<Option<u8>> {
        if addr < 0x2000 {
            InterceptorResult::Intercepted(byte_at(self.chr_rom, addr as int))
        } else {
            InterceptorResult::NotIntercepted
        }
    }

    /// The cartridge after a PPU write: CHR memory takes writes below 0x2000.
    pub open spec fn ppu_write(self, addr: u16, value: u8) -> NROMView {
        if addr < 0x2000 {
            NROMView { chr_rom: store_at(self.chr_rom, addr as int, value), ..self }
        } else {
            self
        }
    }
}

impl NROM {
    /// Builds the mapper from a ROM image: the PRG and CHR data repeated to fill
    /// 32 KiB and 8 KiB.
    pub fn from_ines_rom(rom: &INESRom) -> (r: NROM)
        ensures
            r@ == NROMView::power_on(*rom),
    {
        let prg_rom = tile(&rom.prg_data, 32768);
        let chr_rom = tile(&rom.chr_data, 8192);
        let prg_ram = vec![0u8; 8192];
        assert(prg_ram@ =~= Seq::new(8192, |i: int| 0u8));
        NROM {
            cpu_bus: NROMCPUBusInterceptor { prg_ram, prg_rom },
            ppu_memory: NROMPPUMemoryInterceptor { chr_rom, mirroring: rom.initial_mirroring() },
        }
    }

    /// Answers a CPU read.
    pub fn cpu_read(&self, addr: u16) -> (r: InterceptorResult<Option<u8>>)
        ensures
            r == self@.cpu_read(addr),
    {
        if addr < 0x6000 {
            InterceptorResult::NotIntercepted
        } else if addr < 0x8000 {
            InterceptorResult::Intercepted(get_byte(&self.cpu_bus.prg_ram, addr as usize % 8192))
        } else {
            InterceptorResult::Intercepted(
                get_byte(&self.cpu_bus.prg_rom, (addr - 0x8000) as usize),
            )
        }
    }

    /// Handles a CPU write; returns whether the mapper took it.
    pub fn cpu_write(&mut self, addr: u16, value: u8) -> (r: InterceptorResult<()>)
        ensures
            final(self)@ == old(self)@.cpu_write(addr, value),
            r == (if addr < 0x6000 {
                InterceptorResult::NotIntercepted
            } else {
                InterceptorResult::Intercepted(())
            }),
    {
        if addr < 0x6000 {
            InterceptorResult::NotIntercepted
        } else if addr < 0x8000 {
            set_byte(&mut self.cpu_bus.prg_ram, addr as usize % 8192, value);
            InterceptorResult::Intercepted(())
        } else {
            InterceptorResult::Intercepted(())
        }
    }

    /// Answers a PPU read.
    pub fn ppu_read(&self, addr: u16) -> (r: InterceptorResult<Option<u8>>)
        ensures
            r == self@.ppu_read(addr),
    {
        if addr < 0x2000 {
            InterceptorResult::Intercepted(get_byte(&self.ppu_memory.chr_rom, addr as usize))
        } else {
            InterceptorResult::NotIntercepted
        }
    }

    /// Handles a PPU write; returns whether the mapper took it.
    pub fn ppu_write(&mut self, addr: u16, value: u8) -> (r: InterceptorResult<()>)
        ensures
            final(self)@ == old(self)@.ppu_write(addr, value),
            r == (if addr < 0x2000 {
                InterceptorResult::Intercepted(())
            } else {
                InterceptorResult::NotIntercepted
            }),
    {
        if addr < 0x2000 {
            set_byte(&mut self.ppu_memory.chr_rom, addr as usize, value);
            InterceptorResult::Intercepted(())
        } else {
            InterceptorResult::NotIntercepted
        }
    }
}

/// A 16 KiB PRG ROM (NROM-128) appears twice: the CPU reads the same byte at
/// 0x8000 + i and at 0xc000 + i.
pub proof fn lemma_nrom128_mirror(rom: INESRom, i: u16)
    requires
        rom.prg_data@.len() == 16384,
        i < 0x4000,
    ensures
        NROMView::power_on(rom).cpu_read((0x8000 + i) as u16) == NROMView::power_on(rom).cpu_read(
            (0xc000 + i) as u16,
        ),
        NROMView::power_on(rom).cpu_read((0x8000 + i) as u16) == InterceptorResult::Intercepted(
            Some(rom.prg_data@[i as int]),
        ),
{
    let t = tile_spec(rom.prg_data@, 32768);
    assert(32768nat / 16384nat == 2);
    assert(t[i as int] == rom.prg_data@[i as int % 16384]);
    assert(t[i as int + 0x4000] == rom.prg_data@[(i as int + 0x4000) % 16384]);
    assert((i as int + 0x4000) % 16384 == i as int);
}

} // verus!
