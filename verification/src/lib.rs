pub mod apu;
pub mod audio;
pub mod bus;
pub mod cartridge;
pub mod cpu;
pub mod emulator;
pub mod frame_timing;
pub mod memory;
pub mod nes;
pub mod palette;
pub mod ppu;
