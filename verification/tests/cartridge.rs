use nesemu::cartridge::cartridge::{CartridgeMirroring, InterceptorResult};
use nesemu::cartridge::mmc1::MMC1;
use nesemu::cartridge::mmc3::{MMC3BankSpecifier, MMC3};
use nesemu::cartridge::nrom::NROM;
use nesemu::cartridge::uxrom::UxROM;
use nesemu::cartridge::cnrom::CNROM;
use nesemu::cartridge::Cartridge;
use nesemu::nes::ines_rom::{INESRom, INESRomFlags6, INESRomFlags7, RomError};

/// An iNES image with `prg_units` 16 KiB PRG banks and `chr_units` 8 KiB CHR
/// banks; each PRG bank is filled with its bank number, each CHR bank with its
/// number plus 0x80.
fn image(mapper: u8, prg_units: u8, chr_units: u8, flags6_low: u8) -> Vec<u8> {
    let mut data = vec![
        0x4e, 0x45, 0x53, 0x1a, prg_units, chr_units, (mapper << 4) | flags6_low, mapper & 0xf0, 0, 0, 0, 0, 0, 0, 0, 0,
    ];
    for b in 0..prg_units {
        data.extend(vec![b; 16384]);
    }
    for b in 0..chr_units {
        data.extend(vec![0x80 + b; 8192]);
    }
    data
}

fn rom(mapper: u8, prg_units: u8, chr_units: u8) -> INESRom {
    INESRom::from_reader(&image(mapper, prg_units, chr_units, 0)).unwrap()
}

fn read(r: InterceptorResult<Option<u8>>) -> Option<u8> {
    match r {
        InterceptorResult::Intercepted(v) => v,
        InterceptorResult::NotIntercepted => panic!("not intercepted"),
    }
}

#[test]
fn ines_header_is_parsed() {
    let mut data = image(0x42, 2, 1, 0b0000_1011);
    data[7] |= 0b11;
    let rom = INESRom::from_reader(&data).unwrap();
    assert_eq!(rom.mapper_id, 0x42);
    assert_eq!(rom.prg_data.len(), 32768);
    assert_eq!(rom.chr_data.len(), 8192);
    assert!(rom.vertical_mirroring);
    assert!(rom.has_battery_ram);
    assert!(rom.four_screen_vram);
    assert!(rom.vs_unisystem);
    assert!(rom.playchoice_10);
    assert!(!rom.uses_chr_ram);
    assert!(rom.trainer_data.is_none());
    assert_eq!(rom.initial_mirroring(), CartridgeMirroring::FourScreen);
}

#[test]
fn ines_short_header_is_an_error() {
    assert_eq!(INESRom::from_reader(&[0x4e, 0x45, 0x53]).unwrap_err(), RomError::UnexpectedEof);
}

#[test]
fn ines_missing_trainer_is_an_error() {
    let mut data = vec![0x4e, 0x45, 0x53, 0x1a, 0, 0, 0b100, 0, 0, 0, 0, 0, 0, 0, 0, 0];
    data.extend(vec![0u8; 100]);
    assert_eq!(INESRom::from_reader(&data).unwrap_err(), RomError::UnexpectedEof);
}

#[test]
fn ines_trainer_and_short_data() {
    let mut data = vec![0x4e, 0x45, 0x53, 0x1a, 1, 0, 0b100, 0, 0, 0, 0, 0, 0, 0, 0, 0];
    data.extend(vec![7u8; 512]);
    data.extend(vec![1u8; 100]);
    let rom = INESRom::from_reader(&data).unwrap();
    assert_eq!(rom.trainer_data.as_ref().unwrap().len(), 512);
    // the PRG data is cut short where the image ends
    assert_eq!(rom.prg_data, vec![1u8; 100]);
    assert!(rom.uses_chr_ram);
    assert!(rom.chr_data.is_empty());
    assert_eq!(rom.initial_mirroring(), CartridgeMirroring::Horizontal);
}

#[test]
fn nrom128_prg_appears_twice() {
    let mut data = image(0, 1, 1, 1);
    data[16 + 0x123] = 0x77;
    let rom = INESRom::from_reader(&data).unwrap();
    let nrom = NROM::from_ines_rom(&rom);
    assert_eq!(read(nrom.cpu_read(0x8123)), Some(0x77));
    assert_eq!(read(nrom.cpu_read(0xc123)), Some(0x77));
    assert_eq!(nrom.ppu_memory.mirroring, CartridgeMirroring::Vertical);
    assert_eq!(nrom.cpu_read(0x5000), InterceptorResult::NotIntercepted);
}

#[test]
fn nrom_prg_ram_reads_back() {
    let mut nrom = NROM::from_ines_rom(&rom(0, 2, 1));
    assert_eq!(nrom.cpu_write(0x6010, 0xab), InterceptorResult::Intercepted(()));
    assert_eq!(read(nrom.cpu_read(0x6010)), Some(0xab));
    // ROM ignores writes
    nrom.cpu_write(0x8000, 0x55);
    assert_eq!(read(nrom.cpu_read(0x8000)), Some(0));
    assert_eq!(read(nrom.cpu_read(0xc000)), Some(1));
    assert_eq!(read(nrom.ppu_read(0x0000)), Some(0x80));
}

#[test]
fn uxrom_switches_the_low_bank() {
    let mut ux = UxROM::from_ines_rom(&rom(2, 4, 0));
    assert_eq!(read(ux.cpu_read(0x8000)), Some(0));
    assert_eq!(read(ux.cpu_read(0xc000)), Some(3));
    ux.cpu_write(0x8000, 2);
    assert_eq!(read(ux.cpu_read(0x8000)), Some(2));
    assert_eq!(read(ux.cpu_read(0xffff)), Some(3));
}

#[test]
fn cnrom_switches_chr_banks() {
    let mut cn = CNROM::from_ines_rom(&rom(3, 2, 4));
    assert_eq!(read(cn.ppu_read(0x0000)), Some(0x80));
    cn.cpu_write(0x8000, 2);
    assert_eq!(read(cn.ppu_read(0x0010)), Some(0x82));
}

fn mmc1_serial_write(m: &mut MMC1, addr: u16, value: u8) {
    for i in 0..5 {
        m.cpu_write(addr, (value >> i) & 1);
    }
}

#[test]
fn mmc1_serial_writes_set_registers() {
    let mut m = MMC1::from_ines_rom(&rom(1, 8, 2));
    // control: vertical mirroring (2), PRG mode 3 (fix last bank at 0xc000)
    mmc1_serial_write(&mut m, 0x8000, 0b01110);
    assert_eq!(m.ppu_memory.mirroring, CartridgeMirroring::Vertical);
    mmc1_serial_write(&mut m, 0xe000, 5);
    assert_eq!(read(m.cpu_read(0x8000)), Some(5));
    assert_eq!(read(m.cpu_read(0xc000)), Some(7));
    // a write with bit 7 set resets the shift register
    m.cpu_write(0x8000, 1);
    m.cpu_write(0x8000, 0x80);
    assert_eq!(m.cpu_bus.shift_register.value, 16);
}

#[test]
fn mmc3_banks_and_mirroring() {
    let data = image(4, 4, 1, 0);
    let rom = INESRom::from_reader(&data).unwrap();
    let mut m = MMC3::from_ines_rom(&rom);
    // the last 8 KiB bank is fixed at 0xe000 (PRG bank 3's second half)
    assert_eq!(read(m.cpu_read(0xe000)), Some(3));
    // select R6 and map 8 KiB bank 2 (the first half of 16 KiB bank 1)
    m.cpu_write(0x8000, 6);
    m.cpu_write(0x8001, 2);
    assert_eq!(read(m.cpu_read(0x8000)), Some(1));
    // PRG mode 1 swaps 0x8000 and 0xc000
    m.cpu_write(0x8000, 0x46);
    assert_eq!(read(m.cpu_read(0xc000)), Some(1));
    assert_eq!(read(m.cpu_read(0x8000)), Some(3));
    m.cpu_write(0xa000, 1);
    assert_eq!(m.ppu_memory.mirroring, CartridgeMirroring::Horizontal);
    m.cpu_write(0xa000, 0);
    assert_eq!(m.ppu_memory.mirroring, CartridgeMirroring::Vertical);
    // R0 drops its lowest bit
    m.cpu_write(0x8000, 0);
    m.cpu_write(0x8001, 3);
    assert_eq!(m.ppu_memory.chr_bank_mapping[0], 2);
}

#[test]
fn mmc3_irq_fires_after_reload_plus_one_scanlines() {
    let mut m = MMC3::from_ines_rom(&rom(4, 2, 1));
    m.cpu_write(0xc000, 3); // reload value
    m.cpu_write(0xc001, 0); // clear the counter
    m.cpu_write(0xe001, 0); // enable IRQs
    for _ in 0..3 {
        m.clock_irq_counter();
        assert!(!m.cpu_bus.pending_irq);
    }
    m.clock_irq_counter();
    assert!(m.poll_irq());
    assert!(!m.poll_irq());
    // disabling acknowledges
    m.clock_irq_counter();
    m.cpu_write(0xe000, 0);
    assert!(!m.cpu_bus.pending_irq);
}

#[test]
fn mmc3_bank_specifiers_resolve() {
    let data = vec![0u8; 4 * 8192];
    let mapping = [5u8, 9u8];
    assert_eq!(MMC3BankSpecifier::Mapped(1, 8192).resolve_bank_index(&mapping, &data), 9);
    assert_eq!(MMC3BankSpecifier::Relative(-1, 8192).resolve_bank_index(&mapping, &data), 3);
    assert_eq!(MMC3BankSpecifier::Relative(-2, 8192).resolve_bank_index(&mapping, &data), 2);
    assert_eq!(MMC3BankSpecifier::Relative(1, 8192).resolve_bank_index(&mapping, &data), 1);
    assert_eq!(MMC3BankSpecifier::Relative(-2, 8192).resolve_addr(&mapping, &data, 0x10), 2 * 8192 + 0x10);
    // counted back past the start, the index wraps around as a cast would
    assert_eq!(MMC3BankSpecifier::Relative(-5, 8192).resolve_bank_index(&mapping, &data), usize::MAX);
}

#[test]
fn cartridge_picks_the_mapper() {
    assert!(matches!(Cartridge::from_ines_rom(rom(0, 1, 1)), Cartridge::NROM(_)));
    assert!(matches!(Cartridge::from_ines_rom(rom(1, 2, 1)), Cartridge::MMC1(_)));
    assert!(matches!(Cartridge::from_ines_rom(rom(2, 2, 0)), Cartridge::UxROM(_)));
    assert!(matches!(Cartridge::from_ines_rom(rom(3, 2, 1)), Cartridge::CNROM(_)));
    assert!(matches!(Cartridge::from_ines_rom(rom(4, 2, 1)), Cartridge::MMC3(_)));
    let mut c = Cartridge::from_ines_rom(rom(2, 2, 0));
    assert_eq!(c.cpu_write(0x6000, 1), InterceptorResult::NotIntercepted);
    assert_eq!(c.cpu_write(0x8000, 1), InterceptorResult::Intercepted(()));
    assert!(!c.poll_irq());
}

#[test]
fn header_flag_bytes_split_and_pack() {
    let f6 = INESRomFlags6::from_bits(0b0100_1101);
    assert!(f6.vertical_mirroring);
    assert!(!f6.has_battery_ram);
    assert!(f6.has_trainer);
    assert!(f6.four_screen_vram);
    assert_eq!(f6.mapper_low_nybble, 4);
    assert_eq!(f6.into_bits(), 0b0100_1101);
    let f7 = INESRomFlags7::from_bits(0b0001_1010);
    assert!(!f7.vs_unisystem);
    assert!(f7.playchoice_10);
    assert_eq!(f7.nes20_format, 2);
    assert_eq!(f7.mapper_high_nybble, 1);
    assert_eq!(f7.into_bits(), 0b0001_1010);
    for b in 0..=255u8 {
        assert_eq!(INESRomFlags6::from_bits(b).into_bits(), b);
        assert_eq!(INESRomFlags7::from_bits(b).into_bits(), b);
    }
}

#[test]
fn prg_ram_reads_back_what_was_written() {
    let mut m1 = MMC1::from_ines_rom(&rom(1, 8, 2));
    m1.cpu_write(0x6123, 0x42);
    m1.cpu_write(0x7fff, 0x99);
    assert_eq!(read(m1.cpu_read(0x6123)), Some(0x42));
    assert_eq!(read(m1.cpu_read(0x7fff)), Some(0x99));
    assert_eq!(read(m1.cpu_read(0x6124)), Some(0));
    let mut m3 = MMC3::from_ines_rom(&rom(4, 2, 1));
    m3.cpu_write(0x6000, 0x17);
    assert_eq!(read(m3.cpu_read(0x6000)), Some(0x17));
    assert_eq!(read(m3.cpu_read(0x6001)), Some(0));
}

#[test]
fn mmc3_bank_specifiers_resolve_with_any_bank_size() {
    let data = vec![0u8; 32768];
    assert_eq!(MMC3BankSpecifier::Relative(-1, 8192).resolve_addr(&[0, 0], &data, 0x10), 24592);
    assert_eq!(MMC3BankSpecifier::Relative(-2, 8192).resolve_bank_index(&[0, 0], &data), 2);
    assert_eq!(MMC3BankSpecifier::Mapped(1, 1024).resolve_addr(&[3, 7], &data, 5), 7 * 1024 + 5);
    // a zero bank size maps every bank onto the offset itself
    assert_eq!(MMC3BankSpecifier::Mapped(1, 0).resolve_addr(&[3, 7], &data, 5), 5);
}
