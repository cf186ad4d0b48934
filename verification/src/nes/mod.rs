pub mod controller;
pub mod dma;
pub mod ines_rom;
pub mod nes;
