use vstd::prelude::*;

use super::cartridge::{
    byte_at, get_byte, set_byte, store_at, tile, tile_spec, CartridgeMirroring,
    InterceptorResult,
};
use crate::nes::ines_rom::{initial_mirroring_spec, INESRom};

verus! {

/// CNROM's CPU side: 32 KiB of PRG ROM.
#[derive(Debug, Clone)]
pub struct CNROMCPUBusInterceptor {
    pub prg_rom: Vec<u8>,
}

/// CNROM's PPU side: four 8 KiB CHR banks and the selected one.
#[derive(Debug, Clone)]
pub struct CNROMPPUMemoryInterceptor {
    pub bank_select: u8,
    pub chr_rom: Vec<u8>,
    pub mirroring: CartridgeMirroring,
}

/// Mapper 3: fixed PRG ROM, switchable 8 KiB CHR bank.
#[derive(Debug, Clone)]
pub struct CNROM {
    pub cpu_bus: CNROMCPUBusInterceptor,
    pub ppu_memory: CNROMPPUMemoryInterceptor,
}

/// The contents of a CNROM cartridge.
#[verifier::ext_equal]
pub struct CNROMView {
    pub prg_rom: Seq<u8>,
    pub bank_select: u8,
    pub chr_rom: Seq<u8>,
    pub mirroring: CartridgeMirroring,
}

impl View for CNROM {
    type V = CNROMView;

    open spec fn view(&self) -> CNROMView {
        CNROMView {
            prg_rom: self.cpu_bus.prg_rom@,
            bank_select: self.ppu_memory.bank_select,
            chr_rom: self.ppu_memory.chr_rom@,
            mirroring: self.ppu_memory.mirroring,
        }
    }
}

impl CNROMView {
    /// The cartridge as a ROM image powers it on.
    pub open spec fn power_on(rom: INESRom) -> CNROMView {
        CNROMView {
            prg_rom: tile_spec(rom.prg_data@, 32768),
            bank_select: 0,
            chr_rom: tile_spec(rom.chr_data@, 32768),
            mirroring: initial_mirroring_spec(rom),
        }
    }

    /// What the mapper answers to a CPU read: PRG ROM from 0x8000.
    pub open spec fn cpu_read(self, addr: u16) -> InterceptorResult<Option<u8>> {
        if addr < 0x8000 {
            InterceptorResult::NotIntercepted
        } else {
            InterceptorResult::Intercepted(byte_at(self.prg_rom, addr as int - 0x8000))
        }
    }

    /// The cartridge after a CPU write: a write from 0x8000 selects the CHR bank
    /// by its low two bits.
    pub open spec fn cpu_write(self, addr: u16, value: u8) -> CNROMView {
        if addr < 0x8000 {
            self
        } else {
            CNROMView { bank_select: value % 4, ..self }
        }
    }

    /// What the mapper answers to a PPU read: the selected CHR bank below 0x2000.
    pub open spec fn ppu_read(self, addr: u16) -> InterceptorResult<Option<u8>> {
        if addr < 0x2000 {
            InterceptorResult::Intercepted(
                byte_at(self.chr_rom, self.bank_select as int * 8192 + addr as int),
            )
        } else {
            InterceptorResult::NotIntercepted
        }
    }

    /// The cartridge after a PPU write into the selected CHR bank.
    pub open spec fn ppu_write(self, addr: u16, value: u8) -> CNROMView {
        if addr < 0x2000 {
            CNROMView {
                chr_rom: store_at(self.chr_rom, self.bank_select as int * 8192 + addr as int, value),
                ..self
            }
        } else {
            self
        }
    }
}

impl CNROM {
    /// Builds the mapper from a ROM image: the PRG data repeated to fill 32 KiB
    /// and the CHR data repeated to fill 32 KiB, bank 0 selected.
    pub fn from_ines_rom(rom: &INESRom) -> (r: CNROM)
        ensures
            r@ == CNROMView::power_on(*rom),
    {
        let prg_rom = tile(&rom.prg_data, 32768);
        let chr_rom = tile(&rom.chr_data, 32768);
        CNROM {
            cpu_bus: CNROMCPUBusInterceptor { prg_rom },
            ppu_memory: CNROMPPUMemoryInterceptor {
                bank_select: 0,
                chr_rom,
                mirroring: rom.initial_mirroring(),
            },
        }
    }

    /// Answers a CPU read.
    pub fn cpu_read(&self, addr: u16) -> (r: InterceptorResult<Option<u8>>)
        ensures
            r == self@.cpu_read(addr),
    {
        if addr < 0x8000 {
            InterceptorResult::NotIntercepted
        } else {
            InterceptorResult::Intercepted(
                get_byte(&self.cpu_bus.prg_rom, (addr - 0x8000) as usize),
            )
        }
    }

    /// Handles a CPU write; returns whether the mapper took it.
    pub fn cpu_write(&mut self, addr: u16, value: u8) -> (r: InterceptorResult<()>)
        ensures
            final(self)@ == old(self)@.cpu_write(addr, value),
            r == (if addr < 0x8000 {
                InterceptorResult::NotIntercepted
            } else {
                InterceptorResult::Intercepted(())
            }),
    {
        if addr < 0x8000 {
            InterceptorResult::NotIntercepted
        } else {
            self.ppu_memory.bank_select = value % 4;
            InterceptorResult::Intercepted(())
        }
    }

    /// Answers a PPU read.
    pub fn ppu_read(&self, addr: u16) -> (r: InterceptorResult<Option<u8>>)
        ensures
            r == self@.ppu_read(addr),
    {
        if addr < 0x2000 {
            let index = self.ppu_memory.bank_select as usize * 8192 + addr as usize;
            InterceptorResult::Intercepted(get_byte(&self.ppu_memory.chr_rom, index))
        } else {
            InterceptorResult::NotIntercepted
        }
    }

    /// Handles a PPU write; returns whether the mapper took it.
    pub fn ppu_write(&mut self, addr: u16, value: u8) -> (r: InterceptorResult<()>)
        ensures
            final(self)@ == old(self)@.ppu_write(addr, value),
            r == (if addr < 0x2000 {
                InterceptorResult::Intercepted(())
            } else {
                InterceptorResult::NotIntercepted
            }),
    {
        if addr < 0x2000 {
            let index = self.ppu_memory.bank_select as usize * 8192 + addr as usize;
            set_byte(&mut self.ppu_memory.chr_rom, index, value);
            InterceptorResult::Intercepted(())
        } else {
            InterceptorResult::NotIntercepted
        }
    }
}

} // verus!
