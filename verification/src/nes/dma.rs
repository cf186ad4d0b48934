use vstd::prelude::*;

verus! {

/// The OAM DMA unit: copies a 256-byte page of CPU memory into sprite memory,
/// one byte read and one byte written per pair of cycles.
#[derive(Debug, Clone, Copy, PartialEq, Eq, Structural)]
pub struct DMA {
    pub page: u8,
    pub addr: u8,
    pub data: u8,
    pub transfer: bool,
    pub dummy: bool,
}

impl DMA {
    /// An idle DMA unit.
    pub fn new() -> (r: DMA)
        ensures
            r == (DMA { page: 0, addr: 0, data: 0, transfer: false, dummy: true }),
    {
        DMA { page: 0, addr: 0, data: 0, transfer: false, dummy: true }
    }

    /// The CPU address the next byte is read from.
    pub fn ram_addr(&self) -> (r: u16)
        ensures
            r as int == self.page as int * 256 + self.addr as int,
    {
        (self.page as u16) * 256 + (self.addr as u16)
    }

    /// Holds the byte read for the next write.
    pub fn store_data(&mut self, value: u8)
        ensures
            *final(self) == (DMA { data: value, ..*old(self) }),
    {
        self.data = value;
    }

    /// Writes the held byte into sprite memory at the current offset and moves to
    /// the next; after the 256th byte the transfer ends.
    pub fn write_to_ppu(&mut self, oam: &mut [u8; 256])
        ensures
            final(oam)@ == old(oam)@.update(old(self).addr as int, old(self).data),
            final(self).addr as int == (old(self).addr as int + 1) % 256,
            final(self).page == old(self).page,
            final(self).data == old(self).data,
            final(self).transfer == (old(self).transfer && old(self).addr != 255),
            final(self).dummy == (old(self).dummy || old(self).addr == 255),
    {
        oam[self.addr as usize] = self.data;
        self.addr = if self.addr == 255 {
            0
        } else {
            self.addr + 1
        };
        if self.addr == 0 {
            self.transfer = false;
            self.dummy = true;
        }
    }
}

} // verus!
