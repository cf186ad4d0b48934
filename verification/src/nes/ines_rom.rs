use vstd::prelude::*;

use crate::cartridge::cartridge::CartridgeMirroring;

verus! {

/// Why a ROM image could not be read.
#[derive(Debug, Clone, Copy, PartialEq, Eq, Structural)]
pub enum RomError {
    /// The image ends inside the 16-byte header or inside the 512-byte trainer.
    UnexpectedEof,
}

/// Header byte 6 of an iNES image, field by field (lowest bit first).
#[derive(Debug, Clone, Copy, PartialEq, Eq, Structural)]
pub struct INESRomFlags6 {
    pub vertical_mirroring: bool,
    pub has_battery_ram: bool,
    pub has_trainer: bool,
    pub four_screen_vram: bool,
    /// Bits 4 to 7.
    pub mapper_low_nybble: u8,
}

/// Header byte 7 of an iNES image, field by field (lowest bit first).
#[derive(Debug, Clone, Copy, PartialEq, Eq, Structural)]
pub struct INESRomFlags7 {
    pub vs_unisystem: bool,
    pub playchoice_10: bool,
    /// Bits 2 and 3.
    pub nes20_format: u8,
    /// Bits 4 to 7.
    pub mapper_high_nybble: u8,
}

/// The value of a one-bit field.
pub open spec fn bit_value(b: bool, weight: int) -> int {
    if b {
        weight
    } else {
        0
    }
}

impl INESRomFlags6 {
    /// Every field fits its width.
    pub open spec fn wf(self) -> bool {
        self.mapper_low_nybble < 16
    }

    /// The byte these fields make up.
    pub open spec fn bits(self) -> int {
        bit_value(self.vertical_mirroring, 1) + bit_value(self.has_battery_ram, 2) + bit_value(
            self.has_trainer,
            4,
        ) + bit_value(self.four_screen_vram, 8) + self.mapper_low_nybble as int * 16
    }

    /// Splits a header byte into its fields.
    pub fn from_bits(b: u8) -> (r: INESRomFlags6)
        ensures
            r.wf(),
            r.vertical_mirroring == flag_bit(b, 1),
            r.has_battery_ram == flag_bit(b, 2),
            r.has_trainer == flag_bit(b, 4),
            r.four_screen_vram == flag_bit(b, 8),
            r.mapper_low_nybble == b / 16,
    {
        INESRomFlags6 {
            vertical_mirroring: b % 2 == 1,
            has_battery_ram: (b / 2) % 2 == 1,
            has_trainer: (b / 4) % 2 == 1,
            four_screen_vram: (b / 8) % 2 == 1,
            mapper_low_nybble: b / 16,
        }
    }

    /// Packs the fields back into a header byte.
    pub fn into_bits(self) -> (r: u8)
        requires
            self.wf(),
        ensures
            r as int == self.bits(),
    {
        let mut r: u8 = self.mapper_low_nybble * 16;
        if self.vertical_mirroring {
            r = r + 1;
        }
        if self.has_battery_ram {
            r = r + 2;
        }
        if self.has_trainer {
            r = r + 4;
        }
        if self.four_screen_vram {
            r = r + 8;
        }
        r
    }
}

impl INESRomFlags7 {
    /// Every field fits its width.
    pub open spec fn wf(self) -> bool {
        self.nes20_format < 4 && self.mapper_high_nybble < 16
    }

    /// The byte these fields make up.
    pub open spec fn bits(self) -> int {
        bit_value(self.vs_unisystem, 1) + bit_value(self.playchoice_10, 2) + self.nes20_format as int
            * 4 + self.mapper_high_nybble as int * 16
    }

    /// Splits a header byte into its fields.
    pub fn from_bits(b: u8) -> (r: INESRomFlags7)
        ensures
            r.wf(),
            r.vs_unisystem == flag_bit(b, 1),
            r.playchoice_10 == flag_bit(b, 2),
            r.nes20_format == (b / 4) % 4,
            r.mapper_high_nybble == b / 16,
    {
        INESRomFlags7 {
            vs_unisystem: b % 2 == 1,
            playchoice_10: (b / 2) % 2 == 1,
            nes20_format: (b / 4) % 4,
            mapper_high_nybble: b / 16,
        }
    }

    /// Packs the fields back into a header byte.
    pub fn into_bits(self) -> (r: u8)
        requires
            self.wf(),
        ensures
            r as int == self.bits(),
    {
        let mut r: u8 = self.mapper_high_nybble * 16 + self.nes20_format * 4;
        if self.vs_unisystem {
            r = r + 1;
        }
        if self.playchoice_10 {
            r = r + 2;
        }
        r
    }
}

/// Splitting a header byte into its fields and packing them again gives the
/// byte back, for both flag bytes.
pub proof fn lemma_flags_roundtrip(b: u8)
    ensures
        ({
            let f6 = INESRomFlags6 {
                vertical_mirroring: flag_bit(b, 1),
                has_battery_ram: flag_bit(b, 2),
                has_trainer: flag_bit(b, 4),
                four_screen_vram: flag_bit(b, 8),
                mapper_low_nybble: b / 16,
            };
            f6.wf() && f6.bits() == b as int
        }),
        ({
            let f7 = INESRomFlags7 {
                vs_unisystem: flag_bit(b, 1),
                playchoice_10: flag_bit(b, 2),
                nes20_format: (b / 4) % 4,
                mapper_high_nybble: b / 16,
            };
            f7.wf() && f7.bits() == b as int
        }),
{
}

/// Packing fields into a byte and splitting it again gives the fields back.
pub proof fn lemma_flags6_fields_roundtrip(f: INESRomFlags6)
    requires
        f.wf(),
    ensures
        flag_bit(f.bits() as u8, 1) == f.vertical_mirroring,
        flag_bit(f.bits() as u8, 2) == f.has_battery_ram,
        flag_bit(f.bits() as u8, 4) == f.has_trainer,
        flag_bit(f.bits() as u8, 8) == f.four_screen_vram,
        (f.bits() as u8) / 16 == f.mapper_low_nybble,
{
}

/// A cartridge image in the iNES format.
#[derive(Debug, Clone)]
pub struct INESRom {
    pub prg_data: Vec<u8>,
    pub chr_data: Vec<u8>,
    pub trainer_data: Option<Vec<u8>>,
    pub has_battery_ram: bool,
    pub vertical_mirroring: bool,
    pub mapper_id: u16,
    pub playchoice_10: bool,
    pub vs_unisystem: bool,
    pub uses_chr_ram: bool,
    pub four_screen_vram: bool,
}

/// Whether bit `weight` (a power of two) of byte `b` is set.
pub open spec fn flag_bit(b: u8, weight: int) -> bool {
    (b as int / weight) % 2 == 1
}

/// Whether the header of `data` announces a 512-byte trainer.
pub open spec fn has_trainer_spec(data: Seq<u8>) -> bool {
    flag_bit(data[6], 4)
}

/// Whether `data` holds a whole header, and the whole trainer it announces.
pub open spec fn header_complete(data: Seq<u8>) -> bool {
    data.len() >= 16 && (has_trainer_spec(data) ==> data.len() >= 16 + 512)
}

/// Where the PRG ROM data starts.
pub open spec fn prg_start(data: Seq<u8>) -> int {
    if has_trainer_spec(data) {
        528int
    } else {
        16
    }
}

/// The smaller of `a` and `b`.
pub open spec fn min_int(a: int, b: int) -> int {
    if a < b {
        a
    } else {
        b
    }
}

/// Where the PRG ROM data ends: 16 KiB per unit of header byte 4, cut short by
/// the end of the image.
pub open spec fn prg_end(data: Seq<u8>) -> int {
    min_int(prg_start(data) + data[4] as int * 16384, data.len() as int)
}

/// Where the CHR ROM data ends: 8 KiB per unit of header byte 5 after the PRG
/// data, cut short by the end of the image.
pub open spec fn chr_end(data: Seq<u8>) -> int {
    min_int(prg_end(data) + data[5] as int * 8192, data.len() as int)
}

/// The mapper number: the high nybble of header byte 7 over that of byte 6.
pub open spec fn mapper_id_spec(data: Seq<u8>) -> int {
    (data[7] as int / 16) * 16 + data[6] as int / 16
}

/// Copies `data[start..end]`.
fn copy_range(data: &[u8], start: usize, end: usize) -> (r: Vec<u8>)
    requires
        start <= end <= data@.len(),
    ensures
        r@ == data@.subrange(start as int, end as int),
{
    let mut out: Vec<u8> = Vec::new();
    let mut i = start;
    while i < end
        invariant
            start <= i <= end <= data@.len(),
            out@ == data@.subrange(start as int, i as int),
        decreases end - i,
    {
        out.push(data[i]);
        i = i + 1;
    }
    out
}

/// The nametable arrangement a cartridge with this image starts with.
pub open spec fn initial_mirroring_spec(rom: INESRom) -> CartridgeMirroring {
    if rom.four_screen_vram {
        CartridgeMirroring::FourScreen
    } else if rom.vertical_mirroring {
        CartridgeMirroring::Vertical
    } else {
        CartridgeMirroring::Horizontal
    }
}

impl INESRom {
    /// Reads an iNES image from the bytes a reader yields: a 16-byte header, an
    /// optional 512-byte trainer, then the PRG and CHR data the header sizes,
    /// each cut short where the image ends.
    pub fn from_reader(data: &[u8]) -> (r: Result<INESRom, RomError>)
        ensures
            r is Err <==> !header_complete(data@),
            r matches Err(e) ==> e == RomError::UnexpectedEof,
            r matches Ok(rom) ==> {
                &&& rom.trainer_data is Some == has_trainer_spec(data@)
                &&& rom.trainer_data matches Some(t) ==> t@ == data@.subrange(16, 528)
                &&& rom.prg_data@ == data@.subrange(prg_start(data@), prg_end(data@))
                &&& rom.chr_data@ == data@.subrange(prg_end(data@), chr_end(data@))
                &&& rom.uses_chr_ram == (data@[5] == 0)
                &&& rom.vertical_mirroring == flag_bit(data@[6], 1)
                &&& rom.has_battery_ram == flag_bit(data@[6], 2)
                &&& rom.four_screen_vram == flag_bit(data@[6], 8)
                &&& rom.vs_unisystem == flag_bit(data@[7], 1)
                &&& rom.playchoice_10 == flag_bit(data@[7], 2)
                &&& rom.mapper_id as int == mapper_id_spec(data@)
            },
    {
        if data.len() < 16 {
            return Err(RomError::UnexpectedEof);
        }
        let prg_size: usize = data[4] as usize * 16384;
        let chr_size: usize = data[5] as usize * 8192;
        let uses_chr_ram = chr_size == 0;
        let flags6 = INESRomFlags6::from_bits(data[6]);
        let flags7 = INESRomFlags7::from_bits(data[7]);
        let mapper_id: u8 = flags7.mapper_high_nybble * 16 + flags6.mapper_low_nybble;
        let mut offset: usize = 16;
        let mut trainer_data: Option<Vec<u8>> = None;
        if flags6.has_trainer {
            if data.len() < 16 + 512 {
                return Err(RomError::UnexpectedEof);
            }
            trainer_data = Some(copy_range(data, 16, 16 + 512));
            offset = 16 + 512;
        }
        let prg_stop = if data.len() - offset < prg_size {
            data.len()
        } else {
            offset + prg_size
        };
        let prg_buf = copy_range(data, offset, prg_stop);
        let chr_stop = if data.len() - prg_stop < chr_size {
            data.len()
        } else {
            prg_stop + chr_size
        };
        let chr_buf = copy_range(data, prg_stop, chr_stop);
        Ok(INESRom {
            chr_data: chr_buf,
            prg_data: prg_buf,
            trainer_data,
            has_battery_ram: flags6.has_battery_ram,
            vertical_mirroring: flags6.vertical_mirroring,
            playchoice_10: flags7.playchoice_10,
            vs_unisystem: flags7.vs_unisystem,
            mapper_id: mapper_id as u16,
            uses_chr_ram,
            four_screen_vram: flags6.four_screen_vram,
        })
    }

    /// A copy of the image.
    pub fn duplicate(&self) -> (r: INESRom)
        ensures
            r.prg_data@ == self.prg_data@,
            r.chr_data@ == self.chr_data@,
            r.trainer_data matches Some(t) ==> self.trainer_data matches Some(u) && t@ == u@,
            r.trainer_data is None <==> self.trainer_data is None,
            r.has_battery_ram == self.has_battery_ram,
            r.vertical_mirroring == self.vertical_mirroring,
            r.mapper_id == self.mapper_id,
            r.playchoice_10 == self.playchoice_10,
            r.vs_unisystem == self.vs_unisystem,
            r.uses_chr_ram == self.uses_chr_ram,
            r.four_screen_vram == self.four_screen_vram,
    {
        INESRom {
            prg_data: self.prg_data.clone(),
            chr_data: self.chr_data.clone(),
            trainer_data: match &self.trainer_data {
                Some(t) => Some(t.clone()),
                None => None,
            },
            has_battery_ram: self.has_battery_ram,
            vertical_mirroring: self.vertical_mirroring,
            mapper_id: self.mapper_id,
            playchoice_10: self.playchoice_10,
            vs_unisystem: self.vs_unisystem,
            uses_chr_ram: self.uses_chr_ram,
            four_screen_vram: self.four_screen_vram,
        }
    }

    /// The nametable arrangement the cartridge starts with.
    pub fn initial_mirroring(&self) -> (r: CartridgeMirroring)
        ensures
            r == initial_mirroring_spec(*self),
    {
        if self.four_screen_vram {
            CartridgeMirroring::FourScreen
        } else if self.vertical_mirroring {
            CartridgeMirroring::Vertical
        } else {
            CartridgeMirroring::Horizontal
        }
    }
}

} // verus!
