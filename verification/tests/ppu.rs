use nesemu::palette::palette_color;
use nesemu::bus::Bus;
use nesemu::cartridge::Cartridge;
use nesemu::cpu::cpu_bus::CPUBus;
use nesemu::nes::ines_rom::INESRom;
use nesemu::ppu::{PPURegister, PPU};
use nesemu::cpu::operand::Operand;

fn cartridge(flags6: u8) -> Cartridge {
    let mut data = vec![0x4e, 0x45, 0x53, 0x1a, 1, 1, flags6, 0, 0, 0, 0, 0, 0, 0, 0, 0];
    data.extend(vec![0u8; 16384]);
    let mut chr = vec![0u8; 8192];
    chr[0x10] = 0x3c;
    data.extend(chr);
    Cartridge::from_ines_rom(INESRom::from_reader(&data).unwrap())
}

fn set_vram_addr(bus: &mut CPUBus, addr: u16) {
    bus.write(0x2006, (addr >> 8) as u8);
    bus.write(0x2006, (addr & 0xff) as u8);
}

#[test]
fn register_addresses_round_trip() {
    assert_eq!(PPURegister::from_address(0x2000), PPURegister::PPUCTRL);
    assert_eq!(PPURegister::from_address(0x2007), PPURegister::PPUDATA);
    assert_eq!(PPURegister::from_address(0x3ffa), PPURegister::PPUSTATUS);
    assert_eq!(PPURegister::PPUADDR.address(), Operand::Absolute(0x2006));
    assert_eq!(PPURegister::OAMDMA.address(), Operand::Absolute(0x4014));
}

#[test]
fn ppuaddr_then_ppudata_writes_and_reads_through_the_buffer() {
    let mut bus = CPUBus::new(cartridge(0));
    set_vram_addr(&mut bus, 0x2345);
    assert_eq!(bus.ppu.vram_addr.0, 0x2345);
    bus.write(0x2007, 0xaa);
    bus.write(0x2007, 0xbb);
    set_vram_addr(&mut bus, 0x2345);
    // the first read returns the stale buffer
    let _ = bus.read(0x2007);
    assert_eq!(bus.read(0x2007), 0xaa);
    assert_eq!(bus.read(0x2007), 0xbb);
}

#[test]
fn ppudata_increments_by_32_in_vertical_mode() {
    let mut bus = CPUBus::new(cartridge(0));
    bus.write(0x2000, 0b100);
    set_vram_addr(&mut bus, 0x2000);
    bus.write(0x2007, 1);
    assert_eq!(bus.ppu.vram_addr.0, 0x2020);
}

#[test]
fn horizontal_mirroring_pairs_the_first_two_nametables() {
    let mut bus = CPUBus::new(cartridge(0));
    set_vram_addr(&mut bus, 0x2005);
    bus.write(0x2007, 0x11);
    assert_eq!(bus.ppu.get_ppu_mem(&bus.cartridge, 0x2405), 0x11);
    assert_eq!(bus.ppu.get_ppu_mem(&bus.cartridge, 0x2805), 0x00);
}

#[test]
fn vertical_mirroring_pairs_the_first_and_third_nametables() {
    let mut bus = CPUBus::new(cartridge(1));
    set_vram_addr(&mut bus, 0x2005);
    bus.write(0x2007, 0x22);
    assert_eq!(bus.ppu.get_ppu_mem(&bus.cartridge, 0x2805), 0x22);
    assert_eq!(bus.ppu.get_ppu_mem(&bus.cartridge, 0x2405), 0x00);
}

#[test]
fn palette_backdrop_entries_alias() {
    let mut bus = CPUBus::new(cartridge(0));
    set_vram_addr(&mut bus, 0x3f10);
    bus.write(0x2007, 0x2d);
    assert_eq!(bus.ppu.get_ppu_mem(&bus.cartridge, 0x3f00), 0x2d);
    assert_eq!(bus.ppu.palette_ram[0], 0x2d);
    // grayscale keeps only the top bits of the colour
    bus.write(0x2001, 1);
    assert_eq!(bus.ppu.get_ppu_mem(&bus.cartridge, 0x3f00), 0x20);
    // palette reads above 0x3f00 are not buffered
    set_vram_addr(&mut bus, 0x3f01);
    bus.write(0x2007, 0x15);
    set_vram_addr(&mut bus, 0x3f01);
    bus.write(0x2001, 0);
    assert_eq!(bus.read(0x2007), 0x15);
}

#[test]
fn pattern_memory_comes_from_the_cartridge() {
    let bus = CPUBus::new(cartridge(0));
    assert_eq!(bus.ppu.get_ppu_mem(&bus.cartridge, 0x0010), 0x3c);
}

#[test]
fn status_read_clears_vblank_and_the_latch() {
    let mut bus = CPUBus::new(cartridge(0));
    let mut pix = vec![0u8; 256 * 240 * 4];
    bus.write(0x2000, 0x80);
    let mut nmi = false;
    // the first vertical blank starts at cycle 0 of line 240
    for _ in 0..(241 * 341 + 1) {
        nmi |= bus.tick_ppu(&mut pix);
    }
    assert!(nmi);
    bus.write(0x2006, 0x12);
    let status = bus.read(0x2002);
    assert_eq!(status & 0x80, 0x80);
    assert_eq!(bus.read(0x2002) & 0x80, 0);
    // the latch is back at the high byte
    bus.write(0x2006, 0x21);
    bus.write(0x2006, 0x00);
    assert_eq!(bus.ppu.vram_addr.0, 0x2100);
}

#[test]
fn ppu_position_wraps_after_a_frame() {
    let mut ppu = PPU::new();
    let cart = cartridge(0);
    let mut pix = vec![0u8; 256 * 240 * 4];
    assert_eq!((ppu.cycle, ppu.scanline), (0, -1));
    for _ in 0..341 {
        ppu.tick(&cart, &mut pix);
    }
    assert_eq!((ppu.cycle, ppu.scanline), (0, 0));
    for _ in 0..(261 * 341) {
        ppu.tick(&cart, &mut pix);
    }
    assert_eq!((ppu.cycle, ppu.scanline), (0, -1));
}

#[test]
fn oam_dma_copies_a_page() {
    let mut bus = CPUBus::new(cartridge(0));
    for i in 0..256u16 {
        bus.write(0x0300 + i, i as u8);
    }
    bus.write(0x4014, 0x03);
    let mut count = 0u64;
    while bus.maybe_tick_dma(count) {
        count += 1;
    }
    assert_eq!(bus.ppu.oam[0], 0);
    assert_eq!(bus.ppu.oam[255], 255);
    assert_eq!(bus.ppu.oam[0x80], 0x80);
    // waiting for an odd cycle takes two, then a read and a write per byte
    assert_eq!(count, 2 + 512);
}

#[test]
fn one_nmi_per_frame_when_enabled() {
    let cart = cartridge(0);
    let mut pix = vec![0u8; 256 * 240 * 4];
    let mut ppu = PPU::new();
    // start mid-frame, NMIs enabled
    ppu.scanline = 100;
    ppu.cycle = 17;
    ppu.control.0 = 0x80;
    let mut nmis = 0;
    for _ in 0..89342 {
        if ppu.tick(&cart, &mut pix) {
            nmis += 1;
        }
    }
    assert_eq!(nmis, 1);
    assert_eq!((ppu.scanline, ppu.cycle), (100, 17));
    // NMIs disabled: none
    ppu.control.0 = 0;
    let mut nmis = 0;
    for _ in 0..89342 {
        if ppu.tick(&cart, &mut pix) {
            nmis += 1;
        }
    }
    assert_eq!(nmis, 0);
}

#[test]
fn pixels_are_drawn_in_their_palette_colour() {
    assert_eq!(palette_color(0x00), (84, 84, 84));
    assert_eq!(palette_color(0x21), (76, 154, 236));
    assert_eq!(palette_color(0x61), palette_color(0x21));
    let mut bus = CPUBus::new(cartridge(0));
    set_vram_addr(&mut bus, 0x3f01);
    bus.write(0x2007, 0x21);
    bus.write(0x2001, 0x08);
    bus.ppu.scanline = 0;
    bus.ppu.cycle = 2;
    let mut pix = vec![0u8; 256 * 240 * 4];
    bus.ppu.tick(&bus.cartridge, &mut pix);
    assert_eq!(&pix[8..12], &[76, 154, 236, 255]);
    assert_eq!(&pix[0..8], &[0u8; 8]);
}
