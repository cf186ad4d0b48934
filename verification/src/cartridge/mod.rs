pub mod cartridge;
pub mod chr_banks;
pub mod cnrom;
pub mod mmc1;
pub mod mmc3;
pub mod nrom;
pub mod uxrom;

use vstd::prelude::*;

use self::cartridge::{CartridgeMirroring, InterceptorResult};
use self::cnrom::{CNROMView, CNROM};
use self::mmc1::{MMC1View, MMC1};
use self::mmc3::{MMC3View, MMC3};
use self::nrom::{NROMView, NROM};
use self::uxrom::{UxROMView, UxROM};
use crate::nes::ines_rom::INESRom;

verus! {

/// A cartridge: one of the supported mappers with its memory.
#[derive(Debug, Clone)]
pub enum Cartridge {
    NROM(Box<NROM>),
    MMC1(Box<MMC1>),
    MMC3(Box<MMC3>),
    UxROM(Box<UxROM>),
    CNROM(Box<CNROM>),
}

/// The contents of a cartridge, by mapper.
pub enum CartridgeView {
    NROM(NROMView),
    MMC1(MMC1View),
    MMC3(MMC3View),
    UxROM(UxROMView),
    CNROM(CNROMView),
}

impl View for Cartridge {
    type V = CartridgeView;

    open spec fn view(&self) -> CartridgeView {
        match self {
            Cartridge::NROM(m) => CartridgeView::NROM(m@),
            Cartridge::MMC1(m) => CartridgeView::MMC1(m@),
            Cartridge::MMC3(m) => CartridgeView::MMC3(m@),
            Cartridge::UxROM(m) => CartridgeView::UxROM(m@),
            Cartridge::CNROM(m) => CartridgeView::CNROM(m@),
        }
    }
}

/// Whether the library has a mapper for this mapper number.
pub open spec fn supported_mapper(id: u16) -> bool {
    id <= 4
}

impl CartridgeView {
    /// The cartridge a ROM image powers on as: mapper 0 is NROM, 1 MMC1, 2
    /// UxROM, 3 CNROM and 4 MMC3.
    pub open spec fn power_on(rom: INESRom) -> CartridgeView {
        if rom.mapper_id == 0 {
            CartridgeView::NROM(NROMView::power_on(rom))
        } else if rom.mapper_id == 1 {
            CartridgeView::MMC1(MMC1View::power_on(rom))
        } else if rom.mapper_id == 2 {
            CartridgeView::UxROM(UxROMView::power_on(rom))
        } else if rom.mapper_id == 3 {
            CartridgeView::CNROM(CNROMView::power_on(rom))
        } else {
            CartridgeView::MMC3(MMC3View::power_on(rom))
        }
    }

    /// What the cartridge answers to a CPU read.
    pub open spec fn cpu_read(self, addr: u16) -> InterceptorResult<Option<u8>> {
        match self {
            CartridgeView::NROM(m) => m.cpu_read(addr),
            CartridgeView::MMC1(m) => m.cpu_read(addr),
            CartridgeView::MMC3(m) => m.cpu_read(addr),
            CartridgeView::UxROM(m) => m.cpu_read(addr),
            CartridgeView::CNROM(m) => m.cpu_read(addr),
        }
    }

    /// Whether the cartridge takes a CPU write at `addr`: NROM, MMC1 and MMC3
    /// take everything from 0x6000, UxROM and CNROM from 0x8000.
    pub open spec fn takes_cpu_write(self, addr: u16) -> bool {
        match self {
            CartridgeView::NROM(_) | CartridgeView::MMC1(_) | CartridgeView::MMC3(_) => addr >= 0x6000,
            CartridgeView::UxROM(_) | CartridgeView::CNROM(_) => addr >= 0x8000,
        }
    }

    /// The cartridge after a CPU write.
    pub open spec fn cpu_write(self, addr: u16, value: u8) -> CartridgeView {
        match self {
            CartridgeView::NROM(m) => CartridgeView::NROM(m.cpu_write(addr, value)),
            CartridgeView::MMC1(m) => CartridgeView::MMC1(m.cpu_write(addr, value)),
            CartridgeView::MMC3(m) => CartridgeView::MMC3(m.cpu_write(addr, value)),
            CartridgeView::UxROM(m) => CartridgeView::UxROM(m.cpu_write(addr, value)),
            CartridgeView::CNROM(m) => CartridgeView::CNROM(m.cpu_write(addr, value)),
        }
    }

    /// What the cartridge answers to a PPU read.
    pub open spec fn ppu_read(self, addr: u16) -> InterceptorResult<Option<u8>> {
        match self {
            CartridgeView::NROM(m) => m.ppu_read(addr),
            CartridgeView::MMC1(m) => m.ppu_read(addr),
            CartridgeView::MMC3(m) => m.ppu_read(addr),
            CartridgeView::UxROM(m) => m.ppu_read(addr),
            CartridgeView::CNROM(m) => m.ppu_read(addr),
        }
    }

    /// The cartridge after a PPU write.
    pub open spec fn ppu_write(self, addr: u16, value: u8) -> CartridgeView {
        match self {
            CartridgeView::NROM(m) => CartridgeView::NROM(m.ppu_write(addr, value)),
            CartridgeView::MMC1(m) => CartridgeView::MMC1(m.ppu_write(addr, value)),
            CartridgeView::MMC3(m) => CartridgeView::MMC3(m.ppu_write(addr, value)),
            CartridgeView::UxROM(m) => CartridgeView::UxROM(m.ppu_write(addr, value)),
            CartridgeView::CNROM(m) => CartridgeView::CNROM(m.ppu_write(addr, value)),
        }
    }

    /// How the cartridge arranges the nametables.
    pub open spec fn mirroring(self) -> CartridgeMirroring {
        match self {
            CartridgeView::NROM(m) => m.mirroring,
            CartridgeView::MMC1(m) => m.mirroring,
            CartridgeView::MMC3(m) => m.mirroring,
            CartridgeView::UxROM(m) => m.mirroring,
            CartridgeView::CNROM(m) => m.mirroring,
        }
    }

    /// Whether the cartridge has an IRQ pending (only MMC3 raises one).
    pub open spec fn pending_irq(self) -> bool {
        match self {
            CartridgeView::MMC3(m) => m.pending_irq,
            _ => false,
        }
    }

    /// The cartridge after its pending IRQ is acknowledged.
    pub open spec fn acknowledge_irq(self) -> CartridgeView {
        match self {
            CartridgeView::MMC3(m) => CartridgeView::MMC3(MMC3View { pending_irq: false, ..m }),
            _ => self,
        }
    }

    /// The cartridge after the PPU starts a scanline (MMC3 clocks its IRQ counter).
    pub open spec fn scanline_clock(self) -> CartridgeView {
        match self {
            CartridgeView::MMC3(m) => CartridgeView::MMC3(m.clock_irq_counter()),
            _ => self,
        }
    }
}

impl Cartridge {
    /// Builds the cartridge a ROM image describes, by its mapper number.
    pub fn from_ines_rom(rom: INESRom) -> (r: Cartridge)
        requires
            supported_mapper(rom.mapper_id),
        ensures
            r@ == CartridgeView::power_on(rom),
    {
        if rom.mapper_id == 0 {
            Cartridge::NROM(Box::new(NROM::from_ines_rom(&rom)))
        } else if rom.mapper_id == 1 {
            Cartridge::MMC1(Box::new(MMC1::from_ines_rom(&rom)))
        } else if rom.mapper_id == 2 {
            Cartridge::UxROM(Box::new(UxROM::from_ines_rom(&rom)))
        } else if rom.mapper_id == 3 {
            Cartridge::CNROM(Box::new(CNROM::from_ines_rom(&rom)))
        } else {
            Cartridge::MMC3(Box::new(MMC3::from_ines_rom(&rom)))
        }
    }

    /// Answers a CPU read.
    pub fn cpu_read(&self, addr: u16) -> (r: InterceptorResult<Option<u8>>)
        ensures
            r == self@.cpu_read(addr),
    {
        match self {
            Cartridge::NROM(m) => m.cpu_read(addr),
            Cartridge::MMC1(m) => m.cpu_read(addr),
            Cartridge::MMC3(m) => m.cpu_read(addr),
            Cartridge::UxROM(m) => m.cpu_read(addr),
            Cartridge::CNROM(m) => m.cpu_read(addr),
        }
    }

    /// Handles a CPU write; returns whether the cartridge took it.
    pub fn cpu_write(&mut self, addr: u16, value: u8) -> (r: InterceptorResult<()>)
        ensures
            final(self)@ == old(self)@.cpu_write(addr, value),
            r == (if old(self)@.takes_cpu_write(addr) {
                InterceptorResult::Intercepted(())
            } else {
                InterceptorResult::NotIntercepted
            }),
    {
        match self {
            Cartridge::NROM(m) => m.cpu_write(addr, value),
            Cartridge::MMC1(m) => m.cpu_write(addr, value),
            Cartridge::MMC3(m) => m.cpu_write(addr, value),
            Cartridge::UxROM(m) => m.cpu_write(addr, value),
            Cartridge::CNROM(m) => m.cpu_write(addr, value),
        }
    }

    /// Answers a PPU read.
    pub fn ppu_read(&self, addr: u16) -> (r: InterceptorResult<Option<u8>>)
        ensures
            r == self@.ppu_read(addr),
    {
        match self {
            Cartridge::NROM(m) => m.ppu_read(addr),
            Cartridge::MMC1(m) => m.ppu_read(addr),
            Cartridge::MMC3(m) => m.ppu_read(addr),
            Cartridge::UxROM(m) => m.ppu_read(addr),
            Cartridge::CNROM(m) => m.ppu_read(addr),
        }
    }

    /// Handles a PPU write; every mapper takes the pattern space below 0x2000.
    pub fn ppu_write(&mut self, addr: u16, value: u8) -> (r: InterceptorResult<()>)
        ensures
            final(self)@ == old(self)@.ppu_write(addr, value),
            r == (if addr < 0x2000 {
                InterceptorResult::Intercepted(())
            } else {
                InterceptorResult::NotIntercepted
            }),
    {
        match self {
            Cartridge::NROM(m) => m.ppu_write(addr, value),
            Cartridge::MMC1(m) => m.ppu_write(addr, value),
            Cartridge::MMC3(m) => m.ppu_write(addr, value),
            Cartridge::UxROM(m) => m.ppu_write(addr, value),
            Cartridge::CNROM(m) => m.ppu_write(addr, value),
        }
    }

    /// How the cartridge arranges the nametables.
    pub fn mirroring(&self) -> (r: CartridgeMirroring)
        ensures
            r == self@.mirroring(),
    {
        match self {
            Cartridge::NROM(m) => m.ppu_memory.mirroring,
            Cartridge::MMC1(m) => m.ppu_memory.mirroring,
            Cartridge::MMC3(m) => m.ppu_memory.mirroring,
            Cartridge::UxROM(m) => m.ppu_memory.mirroring,
            Cartridge::CNROM(m) => m.ppu_memory.mirroring,
        }
    }

    /// Returns whether the cartridge has an IRQ pending, and acknowledges it.
    pub fn poll_irq(&mut self) -> (r: bool)
        ensures
            r == old(self)@.pending_irq(),
            final(self)@ == old(self)@.acknowledge_irq(),
    {
        match self {
            Cartridge::MMC3(m) => m.poll_irq(),
            _ => false,
        }
    }

    /// Tells the cartridge that the PPU started a scanline.
    pub fn scanline_clock(&mut self)
        ensures
            final(self)@ == old(self)@.scanline_clock(),
    {
        match self {
            Cartridge::MMC3(m) => m.clock_irq_counter(),
            _ => {},
        }
    }
}

} // verus!
