use vstd::prelude::*;

use crate::cartridge::cartridge::{CartridgeMirroring, InterceptorResult};
use crate::cartridge::{Cartridge, CartridgeView};
use crate::cpu::operand::Operand;
use crate::palette::{palette_color, palette_rgb};

verus! {

/// The PPU's registers as the CPU sees them at 0x2000..0x2007 (mirrored every
/// eight bytes up to 0x3fff), and the OAM DMA register at 0x4014.
#[derive(Debug, Clone, Copy, PartialEq, Eq, Structural)]
pub enum PPURegister {
    PPUCTRL,
    PPUMASK,
    PPUSTATUS,
    OAMADDR,
    OAMDATA,
    PPUSCROLL,
    PPUADDR,
    PPUDATA,
    OAMDMA,
}

/// The register that a CPU address in 0x2000..0x3fff selects.
pub open spec fn register_at(addr: u16) -> PPURegister {
    let i = addr % 8;
    if i == 0 {
        PPURegister::PPUCTRL
    } else if i == 1 {
        PPURegister::PPUMASK
    } else if i == 2 {
        PPURegister::PPUSTATUS
    } else if i == 3 {
        PPURegister::OAMADDR
    } else if i == 4 {
        PPURegister::OAMDATA
    } else if i == 5 {
        PPURegister::PPUSCROLL
    } else if i == 6 {
        PPURegister::PPUADDR
    } else {
        PPURegister::PPUDATA
    }
}

/// The canonical CPU address of a register.
pub open spec fn register_address(r: PPURegister) -> u16 {
    match r {
        PPURegister::PPUCTRL => 0x2000,
        PPURegister::PPUMASK => 0x2001,
        PPURegister::PPUSTATUS => 0x2002,
        PPURegister::OAMADDR => 0x2003,
        PPURegister::OAMDATA => 0x2004,
        PPURegister::PPUSCROLL => 0x2005,
        PPURegister::PPUADDR => 0x2006,
        PPURegister::PPUDATA => 0x2007,
        PPURegister::OAMDMA => 0x4014,
    }
}

impl PPURegister {
    /// The register an address selects, by its low three bits.
    pub fn from_address(addr: u16) -> (r: PPURegister)
        ensures
            r == register_at(addr),
    {
        match addr % 8 {
            0 => PPURegister::PPUCTRL,
            1 => PPURegister::PPUMASK,
            2 => PPURegister::PPUSTATUS,
            3 => PPURegister::OAMADDR,
            4 => PPURegister::OAMDATA,
            5 => PPURegister::PPUSCROLL,
            6 => PPURegister::PPUADDR,
            _ => PPURegister::PPUDATA,
        }
    }

    /// The register's canonical address, as an absolute operand.
    pub fn address(&self) -> (r: Operand)
        ensures
            r == Operand::Absolute(register_address(*self)),
    {
        match self {
            PPURegister::PPUCTRL => Operand::Absolute(0x2000),
            PPURegister::PPUMASK => Operand::Absolute(0x2001),
            PPURegister::PPUSTATUS => Operand::Absolute(0x2002),
            PPURegister::OAMADDR => Operand::Absolute(0x2003),
            PPURegister::OAMDATA => Operand::Absolute(0x2004),
            PPURegister::PPUSCROLL => Operand::Absolute(0x2005),
            PPURegister::PPUADDR => Operand::Absolute(0x2006),
            PPURegister::PPUDATA => Operand::Absolute(0x2007),
            PPURegister::OAMDMA => Operand::Absolute(0x4014),
        }
    }
}

/// Which half of a 16-bit address the next write to PPUSCROLL or PPUADDR sets.
#[derive(Debug, Clone, Copy, PartialEq, Eq, Structural)]
pub enum PPUAddressLatch {
    High,
    Low,
}

/// Whether bit `n` of `v` is set.
pub open spec fn bit8(v: u8, n: u8) -> bool {
    (v >> n) & 1 == 1
}

/// Whether bit `n` of `v` is set.
pub open spec fn bit16(v: u16, n: u16) -> bool {
    (v >> n) & 1 == 1
}

/// PPUSTATUS: sprite overflow (bit 5), sprite zero hit (bit 6), vertical blank (bit 7).
#[derive(Debug, Clone, Copy, PartialEq, Eq, Structural)]
pub struct PPUStatusRegister(pub u8);

/// PPUMASK: grayscale (bit 0), left-column background and sprites (bits 1, 2),
/// background and sprite rendering (bits 3, 4), colour emphasis (bits 5-7).
#[derive(Debug, Clone, Copy, PartialEq, Eq, Structural)]
pub struct PPUMaskRegister(pub u8);

/// PPUCTRL: base nametable (bits 0, 1), VRAM increment (bit 2), sprite and
/// background pattern tables (bits 3, 4), sprite size (bit 5), slave mode
/// (bit 6), NMI at vertical blank (bit 7).
#[derive(Debug, Clone, Copy, PartialEq, Eq, Structural)]
pub struct PPUControlRegister(pub u8);

/// A VRAM address in the PPU's scrolling layout: coarse X (bits 0-4), coarse Y
/// (bits 5-9), nametable X (bit 10), nametable Y (bit 11), fine Y (bits 12-14).
#[derive(Debug, Clone, Copy, PartialEq, Eq, Structural)]
pub struct PPULoopyRegister(pub u16);

impl PPUStatusRegister {
    pub fn sprite_overflow(&self) -> (r: bool)
        ensures
            r == bit8(self.0, 5),
    {
        (self.0 >> 5u8) & 1 == 1
    }

    pub fn sprite_zero_hit(&self) -> (r: bool)
        ensures
            r == bit8(self.0, 6),
    {
        (self.0 >> 6u8) & 1 == 1
    }

    pub fn vertical_blank(&self) -> (r: bool)
        ensures
            r == bit8(self.0, 7),
    {
        (self.0 >> 7u8) & 1 == 1
    }
}

impl PPUMaskRegister {
    pub fn grayscale(&self) -> (r: bool)
        ensures
            r == bit8(self.0, 0),
    {
        (self.0 >> 0u8) & 1 == 1
    }

    pub fn render_background(&self) -> (r: bool)
        ensures
            r == bit8(self.0, 3),
    {
        (self.0 >> 3u8) & 1 == 1
    }

    pub fn render_sprites(&self) -> (r: bool)
        ensures
            r == bit8(self.0, 4),
    {
        (self.0 >> 4u8) & 1 == 1
    }
}

impl PPUControlRegister {
    pub fn nametable_x(&self) -> (r: bool)
        ensures
            r == bit8(self.0, 0),
    {
        (self.0 >> 0u8) & 1 == 1
    }

    pub fn nametable_y(&self) -> (r: bool)
        ensures
            r == bit8(self.0, 1),
    {
        (self.0 >> 1u8) & 1 == 1
    }

    pub fn increment_mode(&self) -> (r: bool)
        ensures
            r == bit8(self.0, 2),
    {
        (self.0 >> 2u8) & 1 == 1
    }

    pub fn pattern_background(&self) -> (r: bool)
        ensures
            r == bit8(self.0, 4),
    {
        (self.0 >> 4u8) & 1 == 1
    }

    pub fn enable_nmi(&self) -> (r: bool)
        ensures
            r == bit8(self.0, 7),
    {
        (self.0 >> 7u8) & 1 == 1
    }
}

/// `v` with the bits under `mask` replaced by `bits` (taken under `mask`).
pub open spec fn with_bits(v: u16, mask: u16, bits: u16) -> u16 {
    (v & !mask) | (bits & mask)
}

/// The bit pattern of a flag at bit `n`.
pub open spec fn flag16(b: bool, n: u16) -> u16 {
    if b {
        1u16 << n
    } else {
        0u16
    }
}

impl PPULoopyRegister {
    pub fn coarse_x(&self) -> (r: u8)
        ensures
            r == (self.0 & 0x1f) as u8,
    {
        (self.0 & 0x1f) as u8
    }

    pub fn coarse_y(&self) -> (r: u8)
        ensures
            r == ((self.0 >> 5u16) & 0x1f) as u8,
    {
        ((self.0 >> 5u16) & 0x1f) as u8
    }

    pub fn nametable_x(&self) -> (r: bool)
        ensures
            r == bit16(self.0, 10),
    {
        (self.0 >> 10u16) & 1 == 1
    }

    pub fn nametable_y(&self) -> (r: bool)
        ensures
            r == bit16(self.0, 11),
    {
        (self.0 >> 11u16) & 1 == 1
    }

    pub fn fine_y(&self) -> (r: u8)
        ensures
            r == ((self.0 >> 12u16) & 7) as u8,
    {
        ((self.0 >> 12u16) & 7) as u8
    }

    pub fn set_coarse_x(&mut self, v: u8)
        ensures
            final(self).0 == with_bits(old(self).0, 0x1f, v as u16),
    {
        self.0 = (self.0 & !0x1fu16) | ((v as u16) & 0x1f);
    }

    pub fn set_coarse_y(&mut self, v: u8)
        ensures
            final(self).0 == with_bits(old(self).0, 0x3e0, (v as u16) << 5u16),
    {
        self.0 = (self.0 & !0x3e0u16) | (((v as u16) << 5u16) & 0x3e0);
    }

    pub fn set_nametable_x(&mut self, b: bool)
        ensures
            final(self).0 == with_bits(old(self).0, 0x400, flag16(b, 10)),
    {
        let bits: u16 = if b {
            1u16 << 10u16
        } else {
            0
        };
        self.0 = (self.0 & !0x400u16) | (bits & 0x400);
    }

    pub fn set_nametable_y(&mut self, b: bool)
        ensures
            final(self).0 == with_bits(old(self).0, 0x800, flag16(b, 11)),
    {
        let bits: u16 = if b {
            1u16 << 11u16
        } else {
            0
        };
        self.0 = (self.0 & !0x800u16) | (bits & 0x800);
    }

    pub fn set_fine_y(&mut self, v: u8)
        ensures
            final(self).0 == with_bits(old(self).0, 0x7000, (v as u16) << 12u16),
    {
        self.0 = (self.0 & !0x7000u16) | (((v as u16) << 12u16) & 0x7000);
    }
}

/// The picture the PPU draws: 256 pixels by 240 lines, four bytes a pixel
/// (red, green, blue, alpha), line after line.
pub open spec fn pixbuf_len() -> nat {
    245760
}

/// The 16-bit sum of `a` and `b`, wrapping past 0xffff.
pub open spec fn wrap16(a: int) -> u16 {
    (a % 65536) as u16
}

fn add16(a: u16, b: u16) -> (r: u16)
    ensures
        r == wrap16(a + b),
{
    if a as u32 + b as u32 > 0xffff {
        (a as u32 + b as u32 - 0x10000) as u16
    } else {
        a + b
    }
}

/// The picture processing unit: its registers, its own memory (OAM, palette,
/// and the two 1 KiB nametables), and its rendering state.
#[derive(Debug, Clone)]
pub struct PPU {
    pub cycle: i32,
    pub scanline: i32,
    pub status: PPUStatusRegister,
    pub mask: PPUMaskRegister,
    pub control: PPUControlRegister,
    pub vram_addr: PPULoopyRegister,
    pub tram_addr: PPULoopyRegister,
    pub fine_x: u8,
    pub data_bus: u8,
    pub address_latch: PPUAddressLatch,
    pub oam_addr: u8,
    pub oam: [u8; 256],
    pub palette_ram: [u8; 32],
    pub name_tables: [u8; 2048],
    pub bg_next_tile_id: u8,
    pub bg_next_tile_attrib: u8,
    pub bg_next_tile_low: u8,
    pub bg_next_tile_high: u8,
    pub bg_shifter_pattern_low: u16,
    pub bg_shifter_pattern_high: u16,
    pub bg_shifter_attrib_low: u16,
    pub bg_shifter_attrib_high: u16,
}

/// The PPU as values.
#[verifier::ext_equal]
pub struct PPUView {
    pub cycle: i32,
    pub scanline: i32,
    pub status: u8,
    pub mask: u8,
    pub control: u8,
    pub vram_addr: u16,
    pub tram_addr: u16,
    pub fine_x: u8,
    pub data_bus: u8,
    pub address_latch: PPUAddressLatch,
    pub oam_addr: u8,
    pub oam: Seq<u8>,
    pub palette_ram: Seq<u8>,
    pub name_tables: Seq<u8>,
    pub bg_next_tile_id: u8,
    pub bg_next_tile_attrib: u8,
    pub bg_next_tile_low: u8,
    pub bg_next_tile_high: u8,
    pub bg_shifter_pattern_low: u16,
    pub bg_shifter_pattern_high: u16,
    pub bg_shifter_attrib_low: u16,
    pub bg_shifter_attrib_high: u16,
}

impl View for PPU {
    type V = PPUView;

    open spec fn view(&self) -> PPUView {
        PPUView {
            cycle: self.cycle,
            scanline: self.scanline,
            status: self.status.0,
            mask: self.mask.0,
            control: self.control.0,
            vram_addr: self.vram_addr.0,
            tram_addr: self.tram_addr.0,
            fine_x: self.fine_x,
            data_bus: self.data_bus,
            address_latch: self.address_latch,
            oam_addr: self.oam_addr,
            oam: self.oam@,
            palette_ram: self.palette_ram@,
            name_tables: self.name_tables@,
            bg_next_tile_id: self.bg_next_tile_id,
            bg_next_tile_attrib: self.bg_next_tile_attrib,
            bg_next_tile_low: self.bg_next_tile_low,
            bg_next_tile_high: self.bg_next_tile_high,
            bg_shifter_pattern_low: self.bg_shifter_pattern_low,
            bg_shifter_pattern_high: self.bg_shifter_pattern_high,
            bg_shifter_attrib_low: self.bg_shifter_attrib_low,
            bg_shifter_attrib_high: self.bg_shifter_attrib_high,
        }
    }
}

/// Where a nametable address (its low 12 bits) lands in the 2 KiB of nametable
/// memory: horizontal mirroring pairs the first two and the last two logical
/// tables, vertical mirroring the first and third and the second and fourth,
/// single-screen maps all four onto the first. With only 2 KiB present,
/// four-screen arrangement is served as vertical mirroring.
pub open spec fn nametable_index(m: CartridgeMirroring, a: int) -> int {
    let table = a / 0x400;
    let offset = a % 0x400;
    match m {
        CartridgeMirroring::Horizontal => (table / 2) * 0x400 + offset,
        CartridgeMirroring::Vertical | CartridgeMirroring::FourScreen => (table % 2) * 0x400 + offset,
        CartridgeMirroring::SingleScreen => offset,
    }
}

/// Where a palette address lands in the 32 bytes of palette memory: the
/// backdrop entries of the sprite palettes mirror those of the background.
pub open spec fn palette_index(addr: u16) -> int {
    let a = (addr & 0x1f) as int;
    if a == 0x10 || a == 0x14 || a == 0x18 || a == 0x1c {
        a - 0x10
    } else {
        a
    }
}

impl PPUView {
    /// The power-on state: cycle 0 of the pre-render line, registers and
    /// memory cleared.
    pub open spec fn power_on() -> PPUView {
        PPUView {
            cycle: 0,
            scanline: -1i32,
            status: 0,
            mask: 0,
            control: 0,
            vram_addr: 0,
            tram_addr: 0,
            fine_x: 0,
            data_bus: 0,
            address_latch: PPUAddressLatch::High,
            oam_addr: 0,
            oam: Seq::new(256, |i: int| 0u8),
            palette_ram: Seq::new(32, |i: int| 0u8),
            name_tables: Seq::new(2048, |i: int| 0u8),
            bg_next_tile_id: 0,
            bg_next_tile_attrib: 0,
            bg_next_tile_low: 0,
            bg_next_tile_high: 0,
            bg_shifter_pattern_low: 0,
            bg_shifter_pattern_high: 0,
            bg_shifter_attrib_low: 0,
            bg_shifter_attrib_high: 0,
        }
    }

    /// What the PPU's own memory holds at `addr` (from 0x2000): nametables up to
    /// 0x3eff, then palette memory, read through the grayscale mask.
    pub open spec fn internal_read(self, m: CartridgeMirroring, addr: u16) -> u8 {
        if addr < 0x2000 {
            0
        } else if addr < 0x3f00 {
            self.name_tables[nametable_index(m, (addr & 0x0fff) as int)]
        } else {
            self.palette_ram[palette_index(addr)] & (if bit8(self.mask, 0) {
                0x30u8
            } else {
                0x3fu8
            })
        }
    }

    /// The PPU's memory at `addr`: the cartridge where it answers (0 for its
    /// open bus), the PPU's own memory elsewhere.
    pub open spec fn mem_read(self, cart: CartridgeView, addr: u16) -> u8 {
        match cart.ppu_read(addr) {
            InterceptorResult::Intercepted(Some(v)) => v,
            InterceptorResult::Intercepted(None) => 0,
            InterceptorResult::NotIntercepted => self.internal_read(cart.mirroring(), addr),
        }
    }

    /// The PPU's own memory after `value` is stored at `addr` (from 0x2000).
    pub open spec fn internal_write(self, m: CartridgeMirroring, addr: u16, value: u8) -> PPUView {
        if addr < 0x2000 {
            self
        } else if addr < 0x3f00 {
            PPUView {
                name_tables: self.name_tables.update(nametable_index(m, (addr & 0x0fff) as int), value),
                ..self
            }
        } else {
            PPUView { palette_ram: self.palette_ram.update(palette_index(addr), value), ..self }
        }
    }

    /// The PPU and the cartridge after `value` is stored at `addr` of the PPU's
    /// memory: the cartridge takes the pattern space, the PPU the rest.
    pub open spec fn mem_write(self, cart: CartridgeView, addr: u16, value: u8) -> (PPUView, CartridgeView) {
        if addr < 0x2000 {
            (self, cart.ppu_write(addr, value))
        } else {
            (self.internal_write(cart.mirroring(), addr, value), cart)
        }
    }

    /// The step of the VRAM address after a PPUDATA access.
    pub open spec fn vram_increment(self) -> u16 {
        if bit8(self.control, 2) {
            32
        } else {
            1
        }
    }

    /// What a CPU read of a register yields: PPUSTATUS gives its top three bits
    /// over the low bits of the data latch, OAMDATA the OAM byte at OAMADDR,
    /// PPUDATA the read buffer (palette memory directly, above 0x3f00); the
    /// other registers read as 0.
    pub open spec fn register_peek(self, cart: CartridgeView, reg: PPURegister) -> u8 {
        match reg {
            PPURegister::PPUSTATUS => (self.status & 0xe0) | (self.data_bus & 0x1f),
            PPURegister::OAMDATA => self.oam[self.oam_addr as int],
            PPURegister::PPUDATA => if self.vram_addr > 0x3f00 {
                self.mem_read(cart, self.vram_addr)
            } else {
                self.data_bus
            },
            _ => 0,
        }
    }

    /// The PPU after the side effects of a CPU read of a register: reading
    /// PPUSTATUS clears vertical blank and the address latch; reading PPUDATA
    /// refills the read buffer and advances the VRAM address.
    pub open spec fn register_read_effect(self, cart: CartridgeView, reg: PPURegister) -> PPUView {
        match reg {
            PPURegister::PPUSTATUS => PPUView {
                status: self.status & 0x7f,
                address_latch: PPUAddressLatch::High,
                ..self
            },
            PPURegister::PPUDATA => PPUView {
                data_bus: self.mem_read(cart, self.vram_addr),
                vram_addr: wrap16(self.vram_addr + self.vram_increment()),
                ..self
            },
            _ => self,
        }
    }

    /// The PPU and the cartridge after a CPU write of `value` to a register.
    pub open spec fn register_write(self, cart: CartridgeView, reg: PPURegister, value: u8) -> (
        PPUView,
        CartridgeView,
    ) {
        match reg {
            PPURegister::PPUCTRL => (
                PPUView {
                    control: value,
                    tram_addr: with_bits(
                        with_bits(self.tram_addr, 0x400, flag16(bit8(value, 0), 10)),
                        0x800,
                        flag16(bit8(value, 1), 11),
                    ),
                    data_bus: value,
                    ..self
                },
                cart,
            ),
            PPURegister::PPUMASK => (PPUView { mask: value, data_bus: value, ..self }, cart),
            PPURegister::OAMADDR => (PPUView { oam_addr: value, ..self }, cart),
            PPURegister::OAMDATA => (
                PPUView {
                    oam: self.oam.update(self.oam_addr as int, value),
                    oam_addr: ((self.oam_addr + 1) % 256) as u8,
                    ..self
                },
                cart,
            ),
            PPURegister::PPUSCROLL => match self.address_latch {
                PPUAddressLatch::High => (
                    PPUView {
                        fine_x: value & 7,
                        tram_addr: with_bits(self.tram_addr, 0x1f, (value >> 3u8) as u16),
                        address_latch: PPUAddressLatch::Low,
                        ..self
                    },
                    cart,
                ),
                PPUAddressLatch::Low => (
                    PPUView {
                        tram_addr: with_bits(
                            with_bits(self.tram_addr, 0x7000, ((value & 7) as u16) << 12u16),
                            0x3e0,
                            ((value >> 3u8) as u16) << 5u16,
                        ),
                        address_latch: PPUAddressLatch::High,
                        ..self
                    },
                    cart,
                ),
            },
            PPURegister::PPUADDR => match self.address_latch {
                PPUAddressLatch::High => (
                    PPUView {
                        tram_addr: (self.tram_addr & 0x00ff) | ((value as u16) << 8u16),
                        address_latch: PPUAddressLatch::Low,
                        ..self
                    },
                    cart,
                ),
                PPUAddressLatch::Low => {
                    let t = (self.tram_addr & 0xff00) | (value as u16);
                    (
                        PPUView {
                            tram_addr: t,
                            vram_addr: t,
                            address_latch: PPUAddressLatch::High,
                            ..self
                        },
                        cart,
                    )
                },
            },
            PPURegister::PPUDATA => {
                let (p, c) = self.mem_write(cart, self.vram_addr, value);
                (PPUView { vram_addr: wrap16(self.vram_addr + self.vram_increment()), ..p }, c)
            },
            _ => (self, cart),
        }
    }

    /// Whether background or sprite rendering is on.
    pub open spec fn rendering(self) -> bool {
        bit8(self.mask, 3) || bit8(self.mask, 4)
    }

    /// The VRAM address after moving one tile right, into the next nametable
    /// after the 32nd tile.
    pub open spec fn increment_scroll_x(self) -> PPUView {
        if self.rendering() {
            if self.vram_addr & 0x1f == 31 {
                PPUView {
                    vram_addr: with_bits(
                        with_bits(self.vram_addr, 0x1f, 0),
                        0x400,
                        flag16(!bit16(self.vram_addr, 10), 10),
                    ),
                    ..self
                }
            } else {
                PPUView {
                    vram_addr: with_bits(self.vram_addr, 0x1f, ((self.vram_addr & 0x1f) + 1) as u16),
                    ..self
                }
            }
        } else {
            self
        }
    }

    /// The VRAM address after moving one pixel row down: fine Y first, then
    /// coarse Y, into the next nametable after row 29 (rows 30 and 31 wrap
    /// without switching).
    pub open spec fn increment_scroll_y(self) -> PPUView {
        let v = self.vram_addr;
        let fine_y = (v >> 12u16) & 7;
        let coarse_y = (v >> 5u16) & 0x1f;
        if self.rendering() {
            if fine_y < 7 {
                PPUView { vram_addr: with_bits(v, 0x7000, ((fine_y + 1) as u16) << 12u16), ..self }
            } else {
                let v1 = with_bits(v, 0x7000, 0);
                PPUView {
                    vram_addr: if coarse_y == 29 {
                        with_bits(with_bits(v1, 0x3e0, 0), 0x800, flag16(!bit16(v, 11), 11))
                    } else if coarse_y == 31 {
                        with_bits(v1, 0x3e0, 0)
                    } else {
                        with_bits(v1, 0x3e0, ((coarse_y + 1) as u16) << 5u16)
                    },
                    ..self
                }
            }
        } else {
            self
        }
    }

    /// The VRAM address after taking the horizontal scroll (nametable X and
    /// coarse X) from the temporary address.
    pub open spec fn transfer_address_x(self) -> PPUView {
        if self.rendering() {
            PPUView {
                vram_addr: with_bits(
                    with_bits(self.vram_addr, 0x400, flag16(bit16(self.tram_addr, 10), 10)),
                    0x1f,
                    (self.tram_addr & 0x1f) as u16,
                ),
                ..self
            }
        } else {
            self
        }
    }

    /// The background shifters with the next tile's pattern and attribute bits
    /// in their low bytes.
    pub open spec fn load_background_shifters(self) -> PPUView {
        PPUView {
            bg_shifter_pattern_low: (self.bg_shifter_pattern_low & 0xff00) | (self.bg_next_tile_low as u16),
            bg_shifter_pattern_high: (self.bg_shifter_pattern_high & 0xff00) | (self.bg_next_tile_high as u16),
            bg_shifter_attrib_low: (self.bg_shifter_attrib_low & 0xff00) | (if self.bg_next_tile_attrib & 1 > 0 {
                0xffu16
            } else {
                0u16
            }),
            bg_shifter_attrib_high: (self.bg_shifter_attrib_high & 0xff00) | (if self.bg_next_tile_attrib & 2 > 0 {
                0xffu16
            } else {
                0u16
            }),
            ..self
        }
    }

    /// The background shifters moved one pixel, when background rendering is on.
    pub open spec fn update_shifters(self) -> PPUView {
        if bit8(self.mask, 3) {
            PPUView {
                bg_shifter_pattern_low: self.bg_shifter_pattern_low << 1u16,
                bg_shifter_pattern_high: self.bg_shifter_pattern_high << 1u16,
                bg_shifter_attrib_low: self.bg_shifter_attrib_low << 1u16,
                bg_shifter_attrib_high: self.bg_shifter_attrib_high << 1u16,
                ..self
            }
        } else {
            self
        }
    }

    /// The address of the pattern row of the next background tile (`plus` 8
    /// for the high plane).
    pub open spec fn pattern_addr(self, plus: u16) -> u16 {
        ((if bit8(self.control, 4) {
            0x1000u16
        } else {
            0u16
        }) + ((self.bg_next_tile_id as u16) << 4u16) + ((self.vram_addr >> 12u16) & 7) + plus) as u16
    }

    /// The address of the attribute byte for the current tile.
    pub open spec fn attribute_addr(self) -> u16 {
        let v = self.vram_addr;
        0x23c0u16 | (if bit16(v, 11) {
            0x800u16
        } else {
            0u16
        }) | (if bit16(v, 10) {
            0x400u16
        } else {
            0u16
        }) | ((((v >> 5u16) & 0x1f) >> 2u16) << 3u16) | ((v & 0x1f) >> 2u16)
    }

    /// The background fetch that cycle `cycle % 8` performs.
    pub open spec fn fetch_step(self, cart: CartridgeView) -> PPUView {
        let phase = self.cycle % 8;
        if phase == 0 {
            let p = self.load_background_shifters();
            PPUView { bg_next_tile_id: p.mem_read(cart, 0x2000u16 | (p.vram_addr & 0x0fff)), ..p }
        } else if phase == 2 {
            PPUView { bg_next_tile_attrib: self.mem_read(cart, self.attribute_addr()), ..self }
        } else if phase == 4 {
            PPUView { bg_next_tile_low: self.mem_read(cart, self.pattern_addr(0)), ..self }
        } else if phase == 6 {
            PPUView { bg_next_tile_high: self.mem_read(cart, self.pattern_addr(8)), ..self }
        } else if phase == 7 {
            self.increment_scroll_x()
        } else {
            self
        }
    }

    /// The background pipeline's work on a fetch cycle: shift, fetch, and move
    /// the VRAM address at the ends of the line (the vertical transfer on the
    /// pre-render line repeats the horizontal one).
    pub open spec fn fetch_cycle(self, cart: CartridgeView) -> PPUView {
        let p1 = self.update_shifters().fetch_step(cart);
        let p2 = if self.cycle == 256 {
            p1.increment_scroll_y()
        } else {
            p1
        };
        let p3 = if self.cycle == 257 {
            p2.transfer_address_x()
        } else {
            p2
        };
        if self.scanline == -1 && 280 <= self.cycle < 305 {
            p3.transfer_address_x()
        } else {
            p3
        }
    }

    /// The palette index of the background pixel under the current shifters:
    /// entry `1 + 4 * palette + pixel` of palette memory, taken modulo 64.
    pub open spec fn background_color(self) -> u8 {
        let mux = if self.fine_x < 16 {
            0x8000u16 >> (self.fine_x as u16)
        } else {
            0u16
        };
        let pixel: int = (if self.bg_shifter_pattern_high & mux > 0 {
            2int
        } else {
            0
        }) + (if self.bg_shifter_pattern_low & mux > 0 {
            1int
        } else {
            0
        });
        let palette: int = (if self.bg_shifter_attrib_high & mux > 0 {
            2int
        } else {
            0
        }) + (if self.bg_shifter_attrib_low & mux > 0 {
            1int
        } else {
            0
        });
        self.palette_ram[1 + palette * 4 + pixel] % 64
    }

    /// The picture after this cycle: a visible cycle (lines 0 to 239, cycles 0
    /// to 255) with background rendering on draws its pixel: the red, green and
    /// blue of its palette colour, and an opaque alpha.
    pub open spec fn render(self, pixbuf: Seq<u8>) -> Seq<u8> {
        if 0 <= self.scanline < 240 && 0 <= self.cycle < 256 && bit8(self.mask, 3) {
            let (r, g, b) = palette_rgb(self.background_color());
            let offset = (self.cycle + self.scanline * 256) * 4;
            pixbuf.update(offset, r).update(offset + 1, g).update(offset + 2, b).update(offset + 3, 255u8)
        } else {
            pixbuf
        }
    }

    /// The position after this cycle: 341 cycles a line, lines -1 (pre-render)
    /// to 260.
    pub open spec fn advance(self) -> PPUView {
        if self.cycle < 340 {
            PPUView { cycle: (self.cycle + 1) as i32, ..self }
        } else {
            PPUView {
                cycle: 0,
                scanline: if self.scanline < 260 {
                    (self.scanline + 1) as i32
                } else {
                    -1i32
                },
                ..self
            }
        }
    }

    /// One PPU cycle: the new PPU, the new picture, and whether an NMI is raised.
    /// The pre-render line clears the status flags at cycle 1; vertical blank
    /// starts at cycle 0 of line 240, with an NMI when PPUCTRL enables it.
    pub open spec fn tick(self, cart: CartridgeView, pixbuf: Seq<u8>) -> (PPUView, Seq<u8>, bool) {
        let picture = self.render(pixbuf);
        let p1 = if self.cycle == 1 && self.scanline == -1 {
            PPUView { status: self.status & 0x1f, ..self }
        } else {
            self
        };
        let p2 = if (1 <= self.cycle < 257) || (328 <= self.cycle < 337) {
            p1.fetch_cycle(cart)
        } else {
            p1
        };
        let vblank = self.cycle == 0 && self.scanline == 240;
        let p3 = if vblank {
            PPUView { status: p2.status | 0x80, ..p2 }
        } else {
            p2
        };
        (p3.advance(), picture, vblank && bit8(self.control, 7))
    }
}

impl PPU {
    /// The power-on state.
    pub fn new() -> (r: PPU)
        ensures
            r@ == PPUView::power_on(),
    {
        let oam = [0u8; 256];
        let palette_ram = [0u8; 32];
        let name_tables = [0u8; 2048];
        assert(oam@ =~= Seq::new(256, |i: int| 0u8));
        assert(palette_ram@ =~= Seq::new(32, |i: int| 0u8));
        assert(name_tables@ =~= Seq::new(2048, |i: int| 0u8));
        PPU {
            cycle: 0,
            scanline: -1,
            status: PPUStatusRegister(0),
            mask: PPUMaskRegister(0),
            control: PPUControlRegister(0),
            vram_addr: PPULoopyRegister(0),
            tram_addr: PPULoopyRegister(0),
            fine_x: 0,
            data_bus: 0,
            address_latch: PPUAddressLatch::High,
            oam_addr: 0,
            oam,
            palette_ram,
            name_tables,
            bg_next_tile_id: 0,
            bg_next_tile_attrib: 0,
            bg_next_tile_low: 0,
            bg_next_tile_high: 0,
            bg_shifter_pattern_low: 0,
            bg_shifter_pattern_high: 0,
            bg_shifter_attrib_low: 0,
            bg_shifter_attrib_high: 0,
        }
    }

    fn nametable_offset(m: CartridgeMirroring, addr: u16) -> (r: usize)
        requires
            addr < 0x1000,
        ensures
            r as int == nametable_index(m, addr as int),
            r < 2048,
    {
        let table = (addr / 0x400) as usize;
        let offset = (addr % 0x400) as usize;
        match m {
            CartridgeMirroring::Horizontal => (table / 2) * 0x400 + offset,
            CartridgeMirroring::Vertical | CartridgeMirroring::FourScreen => (table % 2) * 0x400
                + offset,
            CartridgeMirroring::SingleScreen => offset,
        }
    }

    fn palette_offset(addr: u16) -> (r: usize)
        ensures
            r as int == palette_index(addr),
            r < 32,
    {
        let a = addr & 0x1f;
        assert(a <= 0x1f) by (bit_vector)
            requires
                a == addr & 0x1f,
        ;
        if a == 0x10 || a == 0x14 || a == 0x18 || a == 0x1c {
            (a - 0x10) as usize
        } else {
            a as usize
        }
    }

    /// Reads the PPU's memory at `addr`, the cartridge answering where it does.
    pub fn get_ppu_mem(&self, cart: &Cartridge, addr: u16) -> (r: u8)
        ensures
            r == self@.mem_read(cart@, addr),
    {
        match cart.ppu_read(addr) {
            InterceptorResult::Intercepted(Some(v)) => v,
            InterceptorResult::Intercepted(None) => 0,
            InterceptorResult::NotIntercepted => {
                if addr < 0x2000 {
                    0
                } else if addr < 0x3f00 {
                    let a = addr & 0x0fff;
                    assert(a < 0x1000) by (bit_vector)
                        requires
                            a == addr & 0x0fff,
                    ;
                    self.name_tables[PPU::nametable_offset(cart.mirroring(), a)]
                } else {
                    let mask: u8 = if self.mask.grayscale() {
                        0x30
                    } else {
                        0x3f
                    };
                    self.palette_ram[PPU::palette_offset(addr)] & mask
                }
            },
        }
    }

    /// Writes the PPU's memory at `addr`, the cartridge taking the pattern space.
    pub fn set_ppu_mem(&mut self, cart: &mut Cartridge, addr: u16, value: u8)
        ensures
            (final(self)@, final(cart)@) == old(self)@.mem_write(old(cart)@, addr, value),
    {
        match cart.ppu_write(addr, value) {
            InterceptorResult::Intercepted(_) => {},
            InterceptorResult::NotIntercepted => {
                if addr < 0x3f00 {
                    let a = addr & 0x0fff;
                    assert(a < 0x1000) by (bit_vector)
                        requires
                            a == addr & 0x0fff,
                    ;
                    let i = PPU::nametable_offset(cart.mirroring(), a);
                    self.name_tables[i] = value;
                } else {
                    let i = PPU::palette_offset(addr);
                    self.palette_ram[i] = value;
                }
            },
        }
        proof {
            assert(addr >= 0x2000 ==> old(cart)@.ppu_write(addr, value) == old(cart)@);
        }
    }

    fn vram_increment(&self) -> (r: u16)
        ensures
            r == self@.vram_increment(),
    {
        if self.control.increment_mode() {
            32
        } else {
            1
        }
    }

    /// What a CPU read of a register yields, without its side effects.
    pub fn try_read_readonly(&self, cart: &Cartridge, reg: PPURegister) -> (r: u8)
        ensures
            r == self@.register_peek(cart@, reg),
    {
        match reg {
            PPURegister::PPUSTATUS => (self.status.0 & 0xe0) | (self.data_bus & 0x1f),
            PPURegister::OAMDATA => self.oam[self.oam_addr as usize],
            PPURegister::PPUDATA => if self.vram_addr.0 > 0x3f00 {
                self.get_ppu_mem(cart, self.vram_addr.0)
            } else {
                self.data_bus
            },
            _ => 0,
        }
    }

    /// Performs the side effects of a CPU read of a register.
    pub fn read_side_effects(&mut self, cart: &Cartridge, reg: PPURegister)
        ensures
            final(self)@ == old(self)@.register_read_effect(cart@, reg),
    {
        match reg {
            PPURegister::PPUSTATUS => {
                self.status = PPUStatusRegister(self.status.0 & 0x7f);
                self.address_latch = PPUAddressLatch::High;
            },
            PPURegister::PPUDATA => {
                self.data_bus = self.get_ppu_mem(cart, self.vram_addr.0);
                let inc = self.vram_increment();
                self.vram_addr = PPULoopyRegister(add16(self.vram_addr.0, inc));
            },
            _ => {},
        }
    }

    /// Reads a register as the CPU does: the value, then the side effects.
    pub fn read_bus(&mut self, cart: &Cartridge, reg: PPURegister) -> (r: u8)
        ensures
            r == old(self)@.register_peek(cart@, reg),
            final(self)@ == old(self)@.register_read_effect(cart@, reg),
    {
        let r = self.try_read_readonly(cart, reg);
        self.read_side_effects(cart, reg);
        r
    }

    /// Writes a register as the CPU does.
    pub fn write_bus(&mut self, cart: &mut Cartridge, reg: PPURegister, value: u8)
        ensures
            (final(self)@, final(cart)@) == old(self)@.register_write(old(cart)@, reg, value),
    {
        match reg {
            PPURegister::PPUCTRL => {
                self.control = PPUControlRegister(value);
                let nx = self.control.nametable_x();
                let ny = self.control.nametable_y();
                self.tram_addr.set_nametable_x(nx);
                self.tram_addr.set_nametable_y(ny);
                self.data_bus = value;
            },
            PPURegister::PPUMASK => {
                self.mask = PPUMaskRegister(value);
                self.data_bus = value;
            },
            PPURegister::OAMADDR => {
                self.oam_addr = value;
            },
            PPURegister::OAMDATA => {
                self.oam[self.oam_addr as usize] = value;
                self.oam_addr = if self.oam_addr == 255 {
                    0
                } else {
                    self.oam_addr + 1
                };
            },
            PPURegister::PPUSCROLL => match self.address_latch {
                PPUAddressLatch::High => {
                    self.fine_x = value & 7;
                    self.tram_addr.set_coarse_x(value >> 3u8);
                    self.address_latch = PPUAddressLatch::Low;
                    assert(value & 7 < 8) by (bit_vector);
                },
                PPUAddressLatch::Low => {
                    self.tram_addr.set_fine_y(value & 7);
                    self.tram_addr.set_coarse_y(value >> 3u8);
                    self.address_latch = PPUAddressLatch::High;
                },
            },
            PPURegister::PPUADDR => match self.address_latch {
                PPUAddressLatch::High => {
                    self.tram_addr = PPULoopyRegister((self.tram_addr.0 & 0x00ff) | ((value as u16) << 8u16));
                    self.address_latch = PPUAddressLatch::Low;
                },
                PPUAddressLatch::Low => {
                    self.tram_addr = PPULoopyRegister((self.tram_addr.0 & 0xff00) | (value as u16));
                    self.vram_addr = self.tram_addr;
                    self.address_latch = PPUAddressLatch::High;
                },
            },
            PPURegister::PPUDATA => {
                let v = self.vram_addr.0;
                self.set_ppu_mem(cart, v, value);
                let inc = self.vram_increment();
                self.vram_addr = PPULoopyRegister(add16(v, inc));
            },
            _ => {},
        }
    }

    /// The background palette colour `color_index` of palette `palette_index`
    /// (entry `1 + 4 * palette_index + color_index` of palette memory).
    pub fn get_bg_palette_color(&self, palette_index: usize, color_index: usize) -> (r: u8)
        requires
            1 + palette_index * 4 + color_index < 32,
        ensures
            r == self@.palette_ram[1 + palette_index * 4 + color_index],
    {
        self.palette_ram[1 + palette_index * 4 + color_index]
    }

    /// The sprite palette colour `color_index` of palette `palette_index`
    /// (entry `17 + 4 * palette_index + color_index` of palette memory).
    pub fn get_sprite_palette_color(&self, palette_index: usize, color_index: usize) -> (r: u8)
        requires
            17 + palette_index * 4 + color_index < 32,
        ensures
            r == self@.palette_ram[17 + palette_index * 4 + color_index],
    {
        self.palette_ram[17 + palette_index * 4 + color_index]
    }

    fn rendering(&self) -> (r: bool)
        ensures
            r == self@.rendering(),
    {
        self.mask.render_background() || self.mask.render_sprites()
    }

    fn increment_scroll_x(&mut self)
        ensures
            final(self)@ == old(self)@.increment_scroll_x(),
    {
        let v0 = self.vram_addr.0;
        assert((v0 & 0x1f) <= 31 && (v0 & 0x1f) as u8 as u16 == v0 & 0x1f) by (bit_vector);
        if self.rendering() {
            if self.vram_addr.coarse_x() == 31 {
                let nx = self.vram_addr.nametable_x();
                self.vram_addr.set_coarse_x(0);
                self.vram_addr.set_nametable_x(!nx);
            } else {
                let c = self.vram_addr.coarse_x();
                let v = self.vram_addr.0;
                assert(c == (v & 0x1f) as u8);
                assert((v & 0x1f) <= 31 && (v & 0x1f) as u8 as u16 == v & 0x1f) by (bit_vector);
                assert(((c + 1) as u8) as u16 == ((v & 0x1f) + 1) as u16);
                self.vram_addr.set_coarse_x(c + 1);
            }
        }
    }

    fn increment_scroll_y(&mut self)
        ensures
            final(self)@ == old(self)@.increment_scroll_y(),
    {
        let v = self.vram_addr.0;
        assert(((v >> 12u16) & 7) as u8 as u16 == (v >> 12u16) & 7 && ((v >> 5u16) & 0x1f) as u8 as u16
            == (v >> 5u16) & 0x1f) by (bit_vector);
        if self.rendering() {
            let fine_y = self.vram_addr.fine_y();
            if fine_y < 7 {
                self.vram_addr.set_fine_y(fine_y + 1);
            } else {
                self.vram_addr.set_fine_y(0);
                let coarse_y = self.vram_addr.coarse_y();
                assert(with_bits(v, 0x7000, (0u8 as u16) << 12u16) == with_bits(v, 0x7000, 0)
                    && ((with_bits(v, 0x7000, 0) >> 5u16) & 0x1f) == (v >> 5u16) & 0x1f
                    && bit16(with_bits(v, 0x7000, 0), 11) == bit16(v, 11)) by (bit_vector);
                if coarse_y == 29 {
                    let ny = self.vram_addr.nametable_y();
                    self.vram_addr.set_coarse_y(0);
                    self.vram_addr.set_nametable_y(!ny);
                    assert(((0u8 as u16) << 5u16) == 0u16) by (bit_vector);
                } else if coarse_y == 31 {
                    self.vram_addr.set_coarse_y(0);
                    assert(((0u8 as u16) << 5u16) == 0u16) by (bit_vector);
                } else {
                    assert(((v >> 5u16) & 0x1f) <= 31) by (bit_vector);
                    self.vram_addr.set_coarse_y(coarse_y + 1);
                }
            }
        }
    }

    fn transfer_address_x(&mut self)
        ensures
            final(self)@ == old(self)@.transfer_address_x(),
    {
        if self.rendering() {
            let nx = self.tram_addr.nametable_x();
            let cx = self.tram_addr.coarse_x();
            let t = self.tram_addr.0;
            assert((t & 0x1f) as u8 as u16 == t & 0x1f) by (bit_vector);
            self.vram_addr.set_nametable_x(nx);
            self.vram_addr.set_coarse_x(cx);
        }
    }

    /// Takes the vertical scroll from the temporary address at the end of the
    /// pre-render line (this copies the horizontal fields, as the horizontal
    /// transfer does).
    fn transfer_address_y(&mut self)
        ensures
            final(self)@ == old(self)@.transfer_address_x(),
    {
        self.transfer_address_x();
    }

    fn load_background_shifters(&mut self)
        ensures
            final(self)@ == old(self)@.load_background_shifters(),
    {
        self.bg_shifter_pattern_low = (self.bg_shifter_pattern_low & 0xff00) | (self.bg_next_tile_low as u16);
        self.bg_shifter_pattern_high = (self.bg_shifter_pattern_high & 0xff00) | (self.bg_next_tile_high as u16);
        self.bg_shifter_attrib_low = (self.bg_shifter_attrib_low & 0xff00) | (if self.bg_next_tile_attrib & 1 > 0 {
            0xffu16
        } else {
            0u16
        });
        self.bg_shifter_attrib_high = (self.bg_shifter_attrib_high & 0xff00) | (if self.bg_next_tile_attrib & 2 > 0 {
            0xffu16
        } else {
            0u16
        });
    }

    fn update_shifters(&mut self)
        ensures
            final(self)@ == old(self)@.update_shifters(),
    {
        if self.mask.render_background() {
            self.bg_shifter_pattern_high = self.bg_shifter_pattern_high << 1u16;
            self.bg_shifter_pattern_low = self.bg_shifter_pattern_low << 1u16;
            self.bg_shifter_attrib_high = self.bg_shifter_attrib_high << 1u16;
            self.bg_shifter_attrib_low = self.bg_shifter_attrib_low << 1u16;
        }
    }

    fn pattern_addr(&self, plus: u16) -> (r: u16)
        requires
            plus <= 8,
        ensures
            r == self@.pattern_addr(plus),
    {
        let base: u16 = if self.control.pattern_background() {
            0x1000
        } else {
            0
        };
        let id = self.bg_next_tile_id as u16;
        let fy = self.vram_addr.fine_y() as u16;
        let v = self.vram_addr.0;
        assert((id << 4u16) <= 0xff0 && ((v >> 12u16) & 7) as u8 as u16 == (v >> 12u16) & 7 && (v
            >> 12u16) & 7 <= 7) by (bit_vector)
            requires
                id <= 0xff,
        ;
        base + (id << 4u16) + fy + plus
    }

    fn attribute_addr(&self) -> (r: u16)
        ensures
            r == self@.attribute_addr(),
    {
        let v = self.vram_addr.0;
        let ny: u16 = if self.vram_addr.nametable_y() {
            0x800
        } else {
            0
        };
        let nx: u16 = if self.vram_addr.nametable_x() {
            0x400
        } else {
            0
        };
        0x23c0u16 | ny | nx | ((((v >> 5u16) & 0x1f) >> 2u16) << 3u16) | ((v & 0x1f) >> 2u16)
    }

    fn fetch_step(&mut self, cart: &Cartridge)
        requires
            old(self).cycle >= 0,
        ensures
            final(self)@ == old(self)@.fetch_step(cart@),
    {
        let phase = self.cycle % 8;
        if phase == 0 {
            self.load_background_shifters();
            let a = 0x2000u16 | (self.vram_addr.0 & 0x0fff);
            self.bg_next_tile_id = self.get_ppu_mem(cart, a);
        } else if phase == 2 {
            let a = self.attribute_addr();
            self.bg_next_tile_attrib = self.get_ppu_mem(cart, a);
        } else if phase == 4 {
            let a = self.pattern_addr(0);
            self.bg_next_tile_low = self.get_ppu_mem(cart, a);
        } else if phase == 6 {
            let a = self.pattern_addr(8);
            self.bg_next_tile_high = self.get_ppu_mem(cart, a);
        } else if phase == 7 {
            self.increment_scroll_x();
        }
    }

    fn fetch_cycle(&mut self, cart: &Cartridge)
        requires
            old(self).cycle >= 0,
        ensures
            final(self)@ == old(self)@.fetch_cycle(cart@),
    {
        let cycle = self.cycle;
        let scanline = self.scanline;
        self.update_shifters();
        self.fetch_step(cart);
        if cycle == 256 {
            self.increment_scroll_y();
        }
        if cycle == 257 {
            self.transfer_address_x();
        }
        if scanline == -1 && cycle >= 280 && cycle < 305 {
            self.transfer_address_y();
        }
    }

    fn background_color(&self) -> (r: u8)
        ensures
            r == self@.background_color(),
    {
        let mux: u16 = if self.fine_x < 16 {
            0x8000u16 >> (self.fine_x as u16)
        } else {
            0
        };
        let p0: usize = if (self.bg_shifter_pattern_low & mux) > 0 {
            1
        } else {
            0
        };
        let p1: usize = if (self.bg_shifter_pattern_high & mux) > 0 {
            2
        } else {
            0
        };
        let a0: usize = if (self.bg_shifter_attrib_low & mux) > 0 {
            1
        } else {
            0
        };
        let a1: usize = if (self.bg_shifter_attrib_high & mux) > 0 {
            2
        } else {
            0
        };
        self.get_bg_palette_color(a1 + a0, p1 + p0) % 64
    }

    /// Runs one PPU cycle: draws the current pixel into `pixbuf` (256 by 240
    /// RGBA pixels, in the colour its palette index names), advances the background pipeline and the position,
    /// and returns whether an NMI is raised.
    pub fn tick(&mut self, cart: &Cartridge, pixbuf: &mut Vec<u8>) -> (nmi: bool)
        requires
            old(pixbuf)@.len() == pixbuf_len(),
        ensures
            (final(self)@, final(pixbuf)@, nmi) == old(self)@.tick(cart@, old(pixbuf)@),
            final(pixbuf)@.len() == pixbuf_len(),
    {
        let cycle = self.cycle;
        let scanline = self.scanline;
        if scanline >= 0 && scanline < 240 && cycle >= 0 && cycle < 256 && self.mask.render_background() {
            let (r, g, b) = palette_color(self.background_color());
            let offset = ((cycle + scanline * 256) * 4) as usize;
            pixbuf.set(offset, r);
            pixbuf.set(offset + 1, g);
            pixbuf.set(offset + 2, b);
            pixbuf.set(offset + 3, 255);
        }
        if cycle == 1 && scanline == -1 {
            self.status = PPUStatusRegister(self.status.0 & 0x1f);
        }
        if (cycle >= 1 && cycle < 257) || (cycle >= 328 && cycle < 337) {
            self.fetch_cycle(cart);
        }
        let mut nmi = false;
        if cycle == 0 && scanline == 240 {
            self.status = PPUStatusRegister(self.status.0 | 0x80);
            nmi = self.control.enable_nmi();
        }
        if self.cycle < 340 {
            self.cycle = self.cycle + 1;
        } else {
            self.cycle = 0;
            self.scanline = if self.scanline < 260 {
                self.scanline + 1
            } else {
                -1
            };
        }
        nmi
    }
}

impl Cartridge {
    /// Runs one PPU cycle against this cartridge, clocking the cartridge at the
    /// start of each scanline; returns whether an NMI is raised.
    pub fn tick_ppu(&mut self, ppu: &mut PPU, pixbuf: &mut Vec<u8>) -> (nmi: bool)
        requires
            old(pixbuf)@.len() == pixbuf_len(),
        ensures
            ({
                let (p, pix, n) = old(ppu)@.tick(old(self)@, old(pixbuf)@);
                &&& final(ppu)@ == p
                &&& final(pixbuf)@ == pix
                &&& nmi == n
                &&& final(self)@ == (if p.cycle == 0 {
                    old(self)@.scanline_clock()
                } else {
                    old(self)@
                })
            }),
            final(pixbuf)@.len() == pixbuf_len(),
    {
        let nmi = ppu.tick(self, pixbuf);
        if ppu.cycle == 0 {
            self.scanline_clock();
        }
        nmi
    }
}

/// The PPU's position as a cycle number within the frame: 341 cycles a line,
/// counted from cycle 0 of the pre-render line.
pub open spec fn frame_position(p: PPUView) -> int {
    (p.scanline + 1) * 341 + p.cycle
}

/// The number of PPU cycles in a frame.
pub open spec fn frame_cycles() -> int {
    89342
}

/// Each PPU cycle moves the position one step on, wrapping at the end of the
/// frame (262 lines of 341 cycles).
pub proof fn lemma_advance_steps_frame(p: PPUView)
    requires
        0 <= p.cycle <= 340,
        -1 <= p.scanline <= 260,
    ensures
        frame_position(p.advance()) == (frame_position(p) + 1) % frame_cycles(),
        0 <= p.advance().cycle <= 340,
        -1 <= p.advance().scanline <= 260,
{
}

/// The palette index of an address is one of the 32 palette entries.
pub proof fn lemma_palette_index_in_range(addr: u16)
    ensures
        0 <= palette_index(addr) < 32,
{
    assert(addr & 0x1f <= 0x1f) by (bit_vector);
}

/// A palette write reads back, through the grayscale mask, at every address
/// that names the same entry: the sprite palettes' backdrop entries alias the
/// background ones.
pub proof fn lemma_palette_write_read(p: PPUView, m: CartridgeMirroring, addr: u16, other: u16, value: u8)
    requires
        p.palette_ram.len() == 32,
        addr >= 0x3f00,
        other >= 0x3f00,
        palette_index(addr) == palette_index(other),
    ensures
        p.internal_write(m, addr, value).internal_read(m, other) == value & (if bit8(p.mask, 0) {
            0x30u8
        } else {
            0x3fu8
        }),
{
    lemma_palette_index_in_range(addr);
}

/// A nametable write reads back at every address the mirroring maps to the
/// same byte.
pub proof fn lemma_nametable_write_read(p: PPUView, m: CartridgeMirroring, addr: u16, other: u16, value: u8)
    requires
        p.name_tables.len() == 2048,
        0x2000 <= addr < 0x3f00,
        0x2000 <= other < 0x3f00,
        nametable_index(m, (addr & 0x0fff) as int) == nametable_index(m, (other & 0x0fff) as int),
    ensures
        p.internal_write(m, addr, value).internal_read(m, other) == value,
{
    let a = addr & 0x0fff;
    assert(a < 0x1000) by (bit_vector)
        requires
            a == addr & 0x0fff,
    ;
}

/// Horizontal mirroring pairs the nametables at 0x2000 and 0x2400 (and those
/// at 0x2800 and 0x2c00); vertical mirroring pairs 0x2000 with 0x2800 (and
/// 0x2400 with 0x2c00).
pub proof fn lemma_mirroring_pairs(offset: int)
    requires
        0 <= offset < 0x400,
    ensures
        nametable_index(CartridgeMirroring::Horizontal, offset) == nametable_index(
            CartridgeMirroring::Horizontal,
            offset + 0x400,
        ),
        nametable_index(CartridgeMirroring::Horizontal, offset + 0x800) == nametable_index(
            CartridgeMirroring::Horizontal,
            offset + 0xc00,
        ),
        nametable_index(CartridgeMirroring::Horizontal, offset) != nametable_index(
            CartridgeMirroring::Horizontal,
            offset + 0x800,
        ),
        nametable_index(CartridgeMirroring::Vertical, offset) == nametable_index(
            CartridgeMirroring::Vertical,
            offset + 0x800,
        ),
        nametable_index(CartridgeMirroring::Vertical, offset + 0x400) == nametable_index(
            CartridgeMirroring::Vertical,
            offset + 0xc00,
        ),
        nametable_index(CartridgeMirroring::Vertical, offset) != nametable_index(
            CartridgeMirroring::Vertical,
            offset + 0x400,
        ),
{
}

/// Two PPUADDR writes, high byte first, set the VRAM address to the 16-bit
/// address they spell, and leave the latch ready for the next high byte.
pub proof fn lemma_ppuaddr_writes(p: PPUView, cart: CartridgeView, hi: u8, lo: u8)
    requires
        p.address_latch == PPUAddressLatch::High,
    ensures
        ({
            let (p1, c1) = p.register_write(cart, PPURegister::PPUADDR, hi);
            let (p2, c2) = p1.register_write(c1, PPURegister::PPUADDR, lo);
            &&& p2.vram_addr as int == hi as int * 256 + lo as int
            &&& p2.address_latch == PPUAddressLatch::High
            &&& c2 == cart
        }),
{
    let t = p.tram_addr;
    let t1 = (t & 0x00ff) | ((hi as u16) << 8u16);
    let t2 = (t1 & 0xff00) | (lo as u16);
    assert(t2 as int == hi as int * 256 + lo as int) by (bit_vector)
        requires
            t1 == (t & 0x00ff) | ((hi as u16) << 8u16),
            t2 == (t1 & 0xff00) | (lo as u16),
    ;
}

} // verus!
