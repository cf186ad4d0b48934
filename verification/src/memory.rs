use vstd::prelude::*;

use crate::cpu::operand::Operand;

verus! {

/// A flat model of the CPU's internal memory: 2 KiB of work RAM (mirrored to
/// 0x1fff), the eight PPU registers (mirrored to 0x3fff) and the 24 APU and
/// I/O registers at 0x4000; nothing answers from 0x4018.
#[derive(Debug, Clone)]
pub struct Memory {
    pub work_ram: [u8; 2048],
    pub ppu_registers: [u8; 8],
    pub apu_io_registers: [u8; 24],
}

/// The memory as values.
pub struct MemoryView {
    pub work_ram: Seq<u8>,
    pub ppu_registers: Seq<u8>,
    pub apu_io_registers: Seq<u8>,
}

impl View for Memory {
    type V = MemoryView;

    open spec fn view(&self) -> MemoryView {
        MemoryView {
            work_ram: self.work_ram@,
            ppu_registers: self.ppu_registers@,
            apu_io_registers: self.apu_io_registers@,
        }
    }
}

impl MemoryView {
    /// The byte at `addr`; 0 from 0x4018.
    pub open spec fn read(self, addr: u16) -> u8 {
        if addr < 0x2000 {
            self.work_ram[addr as int % 0x800]
        } else if addr < 0x4000 {
            self.ppu_registers[(addr as int - 0x2000) % 8]
        } else if addr < 0x4018 {
            self.apu_io_registers[addr as int - 0x4000]
        } else {
            0
        }
    }

    /// The memory after `value` is stored at `addr`; unchanged from 0x4018.
    pub open spec fn write(self, addr: u16, value: u8) -> MemoryView {
        if addr < 0x2000 {
            MemoryView { work_ram: self.work_ram.update(addr as int % 0x800, value), ..self }
        } else if addr < 0x4000 {
            MemoryView { ppu_registers: self.ppu_registers.update((addr as int - 0x2000) % 8, value), ..self }
        } else if addr < 0x4018 {
            MemoryView { apu_io_registers: self.apu_io_registers.update(addr as int - 0x4000, value), ..self }
        } else {
            self
        }
    }
}

impl Memory {
    /// Memory with every byte zero.
    pub fn new() -> (r: Memory)
        ensures
            r@.work_ram == Seq::new(2048, |i: int| 0u8),
            r@.ppu_registers == Seq::new(8, |i: int| 0u8),
            r@.apu_io_registers == Seq::new(24, |i: int| 0u8),
    {
        let m = Memory { work_ram: [0u8; 2048], ppu_registers: [0u8; 8], apu_io_registers: [0u8; 24] };
        assert(m.work_ram@ =~= Seq::new(2048, |i: int| 0u8));
        assert(m.ppu_registers@ =~= Seq::new(8, |i: int| 0u8));
        assert(m.apu_io_registers@ =~= Seq::new(24, |i: int| 0u8));
        m
    }

    fn get_virtual(&self, addr: u16) -> (r: u8)
        ensures
            r == self@.read(addr),
    {
        if addr < 0x2000 {
            self.work_ram[(addr % 0x800) as usize]
        } else if addr < 0x4000 {
            self.ppu_registers[((addr - 0x2000) % 8) as usize]
        } else if addr < 0x4018 {
            self.apu_io_registers[(addr - 0x4000) as usize]
        } else {
            0
        }
    }

    fn set_virtual(&mut self, addr: u16, value: u8)
        ensures
            final(self)@ == old(self)@.write(addr, value),
    {
        if addr < 0x2000 {
            self.work_ram[(addr % 0x800) as usize] = value;
        } else if addr < 0x4000 {
            self.ppu_registers[((addr - 0x2000) % 8) as usize] = value;
        } else if addr < 0x4018 {
            self.apu_io_registers[(addr - 0x4000) as usize] = value;
        }
    }

    /// The value of an immediate operand, or the byte at an absolute one.
    pub fn get(&self, addr: &Operand) -> (r: u8)
        requires
            addr is Immediate || addr is Absolute,
        ensures
            r == match *addr {
                Operand::Immediate(v) => v,
                Operand::Absolute(a) => self@.read(a),
                _ => 0,
            },
    {
        match addr {
            Operand::Immediate(value) => *value,
            Operand::Absolute(a) => self.get_virtual(*a),
            _ => 0,
        }
    }

    /// Stores `value` at an absolute operand.
    pub fn set(&mut self, addr: &Operand, value: u8)
        requires
            addr is Absolute,
        ensures
            *addr matches Operand::Absolute(a) && final(self)@ == old(self)@.write(a, value),
    {
        match addr {
            Operand::Absolute(a) => self.set_virtual(*a, value),
            _ => {},
        }
    }
}

} // verus!
