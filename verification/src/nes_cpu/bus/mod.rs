//! The CPU address bus: 2 KiB of internal RAM (mirrored), memory-mapped I/O
//! devices and the cartridge mapper.
use vstd::prelude::*;

use crate::nes_cpu::ines::INesRom;
use crate::nes_cpu::mapper::{Mapper, SimpleNrom};

pub mod addr;

verus! {

/// An I/O device mapped into the CPU address space: PPU registers
/// ($2000-$3FFF), OAM DMA ($4014) and the joypads ($4016/$4017) route here.
pub trait BusIo {
    fn read(&mut self, addr: u16) -> u8;

    fn write(&mut self, addr: u16, val: u8);
}

/// The device type of a bus with nothing attached to its I/O ports.
pub struct NoIo;

impl BusIo for NoIo {
    fn read(&mut self, addr: u16) -> u8 {
        0xFF
    }

    fn write(&mut self, addr: u16, val: u8) {
    }
}

/// The CPU bus: 2 KiB of RAM, an optional cartridge mapper `M` and an optional
/// I/O device `I`.
pub struct Bus<M: Mapper = SimpleNrom, I: BusIo = NoIo> {
    pub ram: Vec<u8>,
    pub mapper: Option<M>,
    pub io: Option<I>,
}

/// Addresses whose reads and writes go to the attached I/O device.
pub open spec fn is_device_addr(a: u16) -> bool {
    (0x2000 <= a <= 0x3FFF) || a == 0x4016 || a == 0x4017
}

/// Addresses whose writes go to the attached I/O device.
pub open spec fn is_device_write_addr(a: u16) -> bool {
    (0x2000 <= a <= 0x3FFF) || a == 0x4014 || a == 0x4016
}

/// `after` is the cartridge slot `before` after a CPU write of `val` to `addr`.
pub open spec fn mapper_written<M: Mapper>(before: Option<M>, addr: u16, val: u8, after: Option<M>) -> bool {
    match before {
        Some(m) => after matches Some(n) && m.written(addr, val, n),
        None => after is None,
    }
}

/// Masked addresses stay inside RAM and the PPU register window.
pub proof fn lemma_addr_masks(a: u16)
    ensures
        (a & 0x07FF) < 2048,
        (a & 0x0007) < 8,
{
    assert((a & 0x07FF) < 2048) by (bit_vector);
    assert((a & 0x0007) < 8) by (bit_vector);
}

impl<M: Mapper, I: BusIo> Bus<M, I> {
    /// Contents of the 2 KiB internal RAM.
    pub open spec fn ram(&self) -> Seq<u8> {
        self.ram@
    }

    pub open spec fn wf(&self) -> bool {
        &&& self.ram().len() == 2048
        &&& (self.mapper matches Some(m) ==> m.wf())
    }

    /// What a side-effect-free read of `a` gives: RAM (mirrored every 2 KiB),
    /// 0xFF over $2000-$5FFF, and the cartridge (0xFF without one) above.
    #[verifier::opaque]
    pub open spec fn peek_spec(&self, a: u16) -> u8 {
        if a <= 0x1FFF {
            self.ram()[(a & 0x07FF) as int]
        } else if a <= 0x5FFF {
            0xFF
        } else {
            match self.mapper {
                Some(m) => m.prg_byte(a),
                None => 0xFF,
            }
        }
    }

    /// The three regions of a side-effect-free read.
    pub proof fn lemma_peek_regions(self, a: u16)
        ensures
            a <= 0x1FFF ==> self.peek_spec(a) == self.ram()[(a & 0x07FF) as int],
            0x2000 <= a <= 0x5FFF ==> self.peek_spec(a) == 0xFF,
            a >= 0x6000 ==> self.peek_spec(a) == match self.mapper {
                Some(m) => m.prg_byte(a),
                None => 0xFF,
            },
    {
        reveal(Bus::peek_spec);
    }

    /// Side-effect-free reads depend only on RAM (below $2000) and on the
    /// cartridge (from $6000).
    pub proof fn lemma_peek_depends(self, other: Self, a: u16)
        ensures
            (a < 0x2000 ==> self.ram() == other.ram()) && (a >= 0x6000 ==> self.mapper
                == other.mapper) ==> self.peek_spec(a) == other.peek_spec(a),
    {
        reveal(Bus::peek_spec);
    }

    /// A byte written to RAM reads back, without side effects, at the written
    /// address and at each of its mirrors (addresses below $2000 that agree
    /// in the low 11 bits).
    pub proof fn lemma_ram_readback(self, after: Self, addr: u16, mirror: u16, val: u8)
        requires
            self.wf(),
            addr <= 0x1FFF,
            mirror <= 0x1FFF,
            addr & 0x07FF == mirror & 0x07FF,
            after.ram() == self.ram().update((addr & 0x07FF) as int, val),
        ensures
            after.peek_spec(mirror) == val,
    {
        reveal(Bus::peek_spec);
        lemma_addr_masks(addr);
    }

    /// A read of `a` reaches the attached I/O device (and may have side effects).
    pub open spec fn reads_device(&self, a: u16) -> bool {
        self.io.is_some() && is_device_addr(a)
    }

    /// A bus with the given mapper and device and zeroed RAM.
    pub fn with_parts(mapper: Option<M>, io: Option<I>) -> (r: Self)
        requires
            mapper matches Some(m) ==> m.wf(),
        ensures
            r.wf(),
            r.ram() == Seq::new(2048, |i: int| 0u8),
            r.mapper == mapper,
            r.io == io,
    {
        let mut ram: Vec<u8> = Vec::new();
        let mut i: usize = 0;
        while i < 2048
            invariant
                i <= 2048,
                ram@ == Seq::new(i as nat, |j: int| 0u8),
            decreases 2048 - i,
        {
            ram.push(0);
            i = i + 1;
            assert(ram@ == Seq::new(i as nat, |j: int| 0u8));
        }
        Bus { ram, mapper, io }
    }

    /// Read a byte. RAM and cartridge reads are side-effect free; device reads
    /// may change the device.
    pub fn read(&mut self, addr: u16) -> (r: u8)
        requires
            old(self).wf(),
        ensures
            final(self).wf(),
            final(self).ram() == old(self).ram(),
            final(self).mapper == old(self).mapper,
            final(self).io.is_some() == old(self).io.is_some(),
            !old(self).reads_device(addr) ==> r == old(self).peek_spec(addr),
            !old(self).reads_device(addr) ==> *final(self) == *old(self),
    {
        proof {
            lemma_addr_masks(addr);
            reveal(Bus::peek_spec);
        }
        if addr <= addr::RAM_END {
            self.ram[(addr & addr::RAM_MASK) as usize]
        } else if addr <= addr::IO_END {
            match &mut self.io {
                Some(io) => io.read(addr::IO_START + (addr & addr::IO_MASK)),
                None => 0xFF,
            }
        } else if addr == addr::JOYPAD1 || addr == addr::JOYPAD2 {
            match &mut self.io {
                Some(io) => io.read(addr),
                None => 0xFF,
            }
        } else if addr >= addr::CARTRIDGE_START {
            match &self.mapper {
                Some(m) => m.read_prg(addr),
                None => 0xFF,
            }
        } else {
            0xFF
        }
    }

    /// Read without side effects: I/O registers read as 0xFF. Used for
    /// logging and disassembly.
    pub fn peek(&self, addr: u16) -> (r: u8)
        requires
            self.wf(),
        ensures
            r == self.peek_spec(addr),
    {
        proof {
            lemma_addr_masks(addr);
            reveal(Bus::peek_spec);
        }
        if addr <= addr::RAM_END {
            self.ram[(addr & addr::RAM_MASK) as usize]
        } else if addr <= addr::APU_IO_END {
            0xFF
        } else {
            match &self.mapper {
                Some(m) => m.read_prg(addr),
                None => 0xFF,
            }
        }
    }

    /// Write a byte: RAM (mirrored), the device ($2000-$3FFF, $4014, $4016)
    /// or the cartridge ($6000-$FFFF).
    pub fn write(&mut self, addr: u16, val: u8)
        requires
            old(self).wf(),
        ensures
            final(self).wf(),
            final(self).io.is_some() == old(self).io.is_some(),
            final(self).ram() == if addr <= 0x1FFF {
                old(self).ram().update((addr & 0x07FF) as int, val)
            } else {
                old(self).ram()
            },
            addr < 0x6000 ==> final(self).mapper == old(self).mapper,
            addr >= 0x6000 ==> mapper_written(old(self).mapper, addr, val, final(self).mapper),
            final(self).mapper.is_some() == old(self).mapper.is_some(),
            !is_device_write_addr(addr) ==> final(self).io == old(self).io,
    {
        proof {
            lemma_addr_masks(addr);
            reveal(Bus::peek_spec);
        }
        if addr <= addr::RAM_END {
            self.ram.set((addr & addr::RAM_MASK) as usize, val);
        } else if addr <= addr::IO_END {
            match &mut self.io {
                Some(io) => io.write(addr::IO_START + (addr & addr::IO_MASK), val),
                None => {},
            }
        } else if addr == addr::OAM_DMA || addr == addr::JOYPAD1 {
            match &mut self.io {
                Some(io) => io.write(addr, val),
                None => {},
            }
        } else if addr >= addr::CARTRIDGE_START {
            match &mut self.mapper {
                Some(m) => m.write_prg(addr, val),
                None => {},
            }
        }
    }
}

/// On an NROM cartridge, a byte written to PRG-RAM ($6000-$7FFF) reads back
/// at that address, and every other cartridge address reads as before; a
/// write to the ROM area ($8000-$FFFF) changes nothing that can be read.
pub proof fn lemma_prg_ram_readback<I: BusIo>(
    before: Bus<SimpleNrom, I>,
    after: Bus<SimpleNrom, I>,
    addr: u16,
    val: u8,
    other: u16,
)
    requires
        before.wf(),
        before.mapper is Some,
        addr >= 0x6000,
        mapper_written(before.mapper, addr, val, after.mapper),
    ensures
        addr <= 0x7FFF ==> after.peek_spec(addr) == val,
        other >= 0x6000 && other != addr ==> after.peek_spec(other) == before.peek_spec(other),
        addr >= 0x8000 && other >= 0x6000 ==> after.peek_spec(other) == before.peek_spec(other),
{
    reveal(Bus::peek_spec);
}

impl Bus<SimpleNrom, NoIo> {
    /// An empty bus: zeroed RAM, no cartridge, no device.
    pub fn new() -> (r: Self)
        ensures
            r.wf(),
            r.ram() == Seq::new(2048, |i: int| 0u8),
            r.mapper.is_none(),
            r.io.is_none(),
    {
        Self::with_parts(None, None)
    }

    /// A bus with an NROM cartridge built from `rom` (for standalone CPU use).
    pub fn from_rom(rom: INesRom) -> (r: Self)
        requires
            rom.prg_rom@.len() > 0,
        ensures
            r.wf(),
            r.ram() == Seq::new(2048, |i: int| 0u8),
            r.io.is_none(),
            r.mapper matches Some(m) && m.prg_rom@ == rom.prg_rom@
                && m.prg_ram@ == Seq::new(8192, |i: int| 0u8) && m.mirroring == rom.mirroring,
    {
        let m = SimpleNrom::new(rom.prg_rom, rom.mirroring);
        Self::with_parts(Some(m), None)
    }
}

} // verus!
