use vstd::prelude::*;

use super::cartridge::{
    byte_at, get_byte, set_byte, store_at, tile, tile_spec, CartridgeMirroring,
    InterceptorResult,
};
use crate::nes::ines_rom::{initial_mirroring_spec, INESRom};

verus! {

/// UxROM's CPU side: the PRG ROM and the selected 16 KiB bank.
#[derive(Debug, Clone)]
pub struct UxROMCPUBusInterceptor {
    pub prg_rom: Vec<u8>,
    pub bank_select: u8,
}

/// UxROM's PPU side: 8 KiB of CHR memory.
#[derive(Debug, Clone)]
pub struct UxROMPPUMemoryInterceptor {
    pub chr_rom: Vec<u8>,
    pub mirroring: CartridgeMirroring,
}

/// Mapper 2: a switchable 16 KiB bank at 0x8000 and the last bank fixed at 0xc000.
#[derive(Debug, Clone)]
pub struct UxROM {
    pub cpu_bus_interceptor: UxROMCPUBusInterceptor,
    pub ppu_memory: UxROMPPUMemoryInterceptor,
}

/// The contents of a UxROM cartridge.
#[verifier::ext_equal]
pub struct UxROMView {
    pub prg_rom: Seq<u8>,
    pub bank_select: u8,
    pub chr_rom: Seq<u8>,
    pub mirroring: CartridgeMirroring,
}

impl View for UxROM {
    type V = UxROMView;

    open spec fn view(&self) -> UxROMView {
        UxROMView {
            prg_rom: self.cpu_bus_interceptor.prg_rom@,
            bank_select: self.cpu_bus_interceptor.bank_select,
            chr_rom: self.ppu_memory.chr_rom@,
            mirroring: self.ppu_memory.mirroring,
        }
    }
}

impl UxROMView {
    /// The cartridge as a ROM image powers it on.
    pub open spec fn power_on(rom: INESRom) -> UxROMView {
        UxROMView {
            prg_rom: rom.prg_data@,
            bank_select: 0,
            chr_rom: tile_spec(rom.chr_data@, 8192),
            mirroring: initial_mirroring_spec(rom),
        }
    }

    /// What the mapper answers to a CPU read: the selected bank (wrapping around
    /// the ROM) at 0x8000, the last 16 KiB of the ROM at 0xc000. An empty ROM, or
    /// one shorter than 16 KiB for the fixed bank, reads as open bus.
    pub open spec fn cpu_read(self, addr: u16) -> InterceptorResult<Option<u8>> {
        let len = self.prg_rom.len() as int;
        if addr < 0x8000 {
            InterceptorResult::NotIntercepted
        } else if addr < 0xc000 {
            if len == 0 {
                InterceptorResult::Intercepted(None)
            } else {
                InterceptorResult::Intercepted(
                    byte_at(
                        self.prg_rom,
                        (0x4000 * self.bank_select as int + (addr as int - 0x8000)) % len,
                    ),
                )
            }
        } else if len < 0x4000 {
            InterceptorResult::Intercepted(None)
        } else {
            InterceptorResult::Intercepted(byte_at(self.prg_rom, len - 0x4000 + (addr as int - 0xc000)))
        }
    }

    /// The cartridge after a CPU write: any write from 0x8000 selects the bank.
    pub open spec fn cpu_write(self, addr: u16, value: u8) -> UxROMView {
        if addr < 0x8000 {
            self
        } else {
            UxROMView { bank_select: value, ..self }
        }
    }

    /// What the mapper answers to a PPU read: CHR memory below 0x2000.
    pub open spec fn ppu_read(self, addr: u16) -> InterceptorResult<Option<u8>> {
        if addr < 0x2000 {
            InterceptorResult::Intercepted(byte_at(self.chr_rom, addr as int))
        } else {
            InterceptorResult::NotIntercepted
        }
    }

    /// The cartridge after a PPU write: CHR memory takes writes below 0x2000.
    pub open spec fn ppu_write(self, addr: u16, value: u8) -> UxROMView {
        if addr < 0x2000 {
            UxROMView { chr_rom: store_at(self.chr_rom, addr as int, value), ..self }
        } else {
            self
        }
    }
}

impl UxROM {
    /// Builds the mapper from a ROM image: the PRG data as it is, bank 0
    /// selected, and the CHR data repeated to fill 8 KiB.
    pub fn from_ines_rom(rom: &INESRom) -> (r: UxROM)
        ensures
            r@ == UxROMView::power_on(*rom),
    {
        let chr_rom = tile(&rom.chr_data, 8192);
        UxROM {
            cpu_bus_interceptor: UxROMCPUBusInterceptor {
                prg_rom: rom.prg_data.clone(),
                bank_select: 0,
            },
            ppu_memory: UxROMPPUMemoryInterceptor { chr_rom, mirroring: rom.initial_mirroring() },
        }
    }

    /// Answers a CPU read.
    pub fn cpu_read(&self, addr: u16) -> (r: InterceptorResult<Option<u8>>)
        ensures
            r == self@.cpu_read(addr),
    {
        let len = self.cpu_bus_interceptor.prg_rom.len();
        if addr < 0x8000 {
            InterceptorResult::NotIntercepted
        } else if addr < 0xc000 {
            if len == 0 {
                InterceptorResult::Intercepted(None)
            } else {
                let index = (0x4000 * (self.cpu_bus_interceptor.bank_select as usize) + (addr
                    - 0x8000) as usize) % len;
                InterceptorResult::Intercepted(get_byte(&self.cpu_bus_interceptor.prg_rom, index))
            }
        } else if len < 0x4000 {
            InterceptorResult::Intercepted(None)
        } else {
            InterceptorResult::Intercepted(
                get_byte(&self.cpu_bus_interceptor.prg_rom, len - 0x4000 + (addr - 0xc000) as usize),
            )
        }
    }

    /// Handles a CPU write; returns whether the mapper took it.
    pub fn cpu_write(&mut self, addr: u16, value: u8) -> (r: InterceptorResult<()>)
        ensures
            final(self)@ == old(self)@.cpu_write(addr, value),
            r == (if addr < 0x8000 {
                InterceptorResult::NotIntercepted
            } else {
                InterceptorResult::Intercepted(())
            }),
    {
        if addr < 0x8000 {
            InterceptorResult::NotIntercepted
        } else {
            self.cpu_bus_interceptor.bank_select = value;
            InterceptorResult::Intercepted(())
        }
    }

    /// Answers a PPU read.
    pub fn ppu_read(&self, addr: u16) -> (r: InterceptorResult<Option<u8>>)
        ensures
            r == self@.ppu_read(addr),
    {
        if addr < 0x2000 {
            InterceptorResult::Intercepted(get_byte(&self.ppu_memory.chr_rom, addr as usize))
        } else {
            InterceptorResult::NotIntercepted
        }
    }

    /// Handles a PPU write; returns whether the mapper took it.
    pub fn ppu_write(&mut self, addr: u16, value: u8) -> (r: InterceptorResult<()>)
        ensures
            final(self)@ == old(self)@.ppu_write(addr, value),
            r == (if addr < 0x2000 {
                InterceptorResult::Intercepted(())
            } else {
                InterceptorResult::NotIntercepted
            }),
    {
        if addr < 0x2000 {
            set_byte(&mut self.ppu_memory.chr_rom, addr as usize, value);
            InterceptorResult::Intercepted(())
        } else {
            InterceptorResult::NotIntercepted
        }
    }
}

} // verus!
