//! Cartridge mappers.
use vstd::prelude::*;

use crate::nes_cpu::ines::Mirroring;

verus! {

/// A cartridge mapper: PRG-ROM/RAM banking on the CPU side, CHR banking on the
/// PPU side, and the current nametable mirroring.
pub trait Mapper: Sized {
    /// The mapper's internal consistency condition.
    spec fn wf(&self) -> bool;

    /// `next` is this mapper after a CPU write of `val` to `addr` ($6000-$FFFF).
    spec fn written(&self, addr: u16, val: u8, next: Self) -> bool;

    /// What a CPU-side read of `addr` ($6000-$FFFF) returns in this state.
    spec fn prg_byte(&self, addr: u16) -> u8;

    /// What a PPU-side read of `addr` ($0000-$1FFF) returns in this state.
    spec fn chr_byte(&self, addr: u16) -> u8;

    /// The current mirroring mode.
    spec fn mirroring_mode(&self) -> Mirroring;

    /// Read from PRG address space ($6000-$FFFF).
    fn read_prg(&self, addr: u16) -> (r: u8)
        requires
            self.wf(),
        ensures
            r == self.prg_byte(addr),
    ;

    /// Write to PRG address space: $6000-$7FFF is PRG-RAM, $8000-$FFFF bank registers.
    fn write_prg(&mut self, addr: u16, val: u8)
        requires
            old(self).wf(),
        ensures
            final(self).wf(),
            old(self).written(addr, val, *final(self)),
    ;

    /// Read from CHR address space ($0000-$1FFF).
    fn read_chr(&self, addr: u16) -> (r: u8)
        requires
            self.wf(),
        ensures
            r == self.chr_byte(addr),
    ;

    /// Write to CHR address space; only effective for CHR-RAM.
    fn write_chr(&mut self, addr: u16, val: u8)
        requires
            old(self).wf(),
        ensures
            final(self).wf(),
    ;

    /// Current nametable mirroring mode (may change at runtime).
    fn mirroring(&self) -> (r: Mirroring)
        ensures
            r == self.mirroring_mode(),
    ;
}

/// Mapper 0 (NROM) for standalone CPU use: PRG-ROM mirrored over
/// $8000-$FFFF, 8 KiB of PRG-RAM at $6000-$7FFF, no CHR.
pub struct SimpleNrom {
    pub prg_rom: Vec<u8>,
    pub prg_ram: Vec<u8>,
    pub mirroring: Mirroring,
}

impl SimpleNrom {
    /// An NROM board holding `prg_rom`, with zeroed PRG-RAM.
    pub fn new(prg_rom: Vec<u8>, mirroring: Mirroring) -> (r: Self)
        requires
            prg_rom@.len() > 0,
        ensures
            r.wf(),
            r.prg_rom@ == prg_rom@,
            r.prg_ram@ == Seq::new(8192, |i: int| 0u8),
            r.mirroring == mirroring,
    {
        let mut prg_ram: Vec<u8> = Vec::new();
        let mut i: usize = 0;
        while i < 8192
            invariant
                i <= 8192,
                prg_ram@ == Seq::new(i as nat, |j: int| 0u8),
            decreases 8192 - i,
        {
            prg_ram.push(0);
            i = i + 1;
            assert(prg_ram@ == Seq::new(i as nat, |j: int| 0u8));
        }
        SimpleNrom { prg_rom, prg_ram, mirroring }
    }
}

impl Mapper for SimpleNrom {
    open spec fn wf(&self) -> bool {
        self.prg_ram@.len() == 8192 && self.prg_rom@.len() > 0
    }

    /// PRG-RAM takes the byte; writes to the ROM area are ignored.
    open spec fn written(&self, addr: u16, val: u8, next: Self) -> bool {
        &&& next.prg_rom@ == self.prg_rom@
        &&& next.mirroring == self.mirroring
        &&& next.prg_ram@ == if 0x6000 <= addr <= 0x7FFF {
            self.prg_ram@.update(addr - 0x6000, val)
        } else {
            self.prg_ram@
        }
    }

    open spec fn prg_byte(&self, addr: u16) -> u8 {
        if 0x6000 <= addr <= 0x7FFF {
            self.prg_ram@[addr - 0x6000]
        } else if addr >= 0x8000 {
            self.prg_rom@[(addr - 0x8000) % (self.prg_rom@.len() as int)]
        } else {
            0
        }
    }

    open spec fn chr_byte(&self, addr: u16) -> u8 {
        0
    }

    open spec fn mirroring_mode(&self) -> Mirroring {
        self.mirroring
    }

    fn read_prg(&self, addr: u16) -> (r: u8) {
        if 0x6000 <= addr && addr <= 0x7FFF {
            self.prg_ram[(addr - 0x6000) as usize]
        } else if addr >= 0x8000 {
            let offset = (addr - 0x8000) as usize % self.prg_rom.len();
            self.prg_rom[offset]
        } else {
            0
        }
    }

    fn write_prg(&mut self, addr: u16, val: u8) {
        if 0x6000 <= addr && addr <= 0x7FFF {
            self.prg_ram.set((addr - 0x6000) as usize, val);
        }
    }

    fn read_chr(&self, addr: u16) -> (r: u8) {
        0
    }

    fn write_chr(&mut self, addr: u16, val: u8)
        ensures
            final(self).prg_rom@ == old(self).prg_rom@,
            final(self).prg_ram@ == old(self).prg_ram@,
            final(self).mirroring == old(self).mirroring,
    {
    }

    fn mirroring(&self) -> (r: Mirroring) {
        self.mirroring
    }
}

} // verus!
