//! Loading raw program bytes into RAM.
use vstd::prelude::*;

use crate::nes_cpu::bus::{Bus, BusIo};
use crate::nes_cpu::cpu::Cpu;
use crate::nes_cpu::cpu::semantics::Regs;
use crate::nes_cpu::mapper::Mapper;

verus! {

/// Where `load_program` puts the first program byte, and where it starts.
pub const PROGRAM_START: u16 = 0x0600;

/// RAM after the first `n` program bytes were written from $0600 on: each
/// write below $2000 lands in the mirrored 2 KiB, later bytes over earlier.
pub open spec fn loaded_ram(ram: Seq<u8>, program: Seq<u8>, n: nat) -> Seq<u8>
    decreases n,
{
    if n == 0 {
        ram
    } else {
        let prev = loaded_ram(ram, program, (n - 1) as nat);
        let a = (0x0600 + (n - 1)) as u16;
        if a <= 0x1FFF {
            prev.update((a & 0x07FF) as int, program[n - 1])
        } else {
            prev
        }
    }
}

/// Addresses $0600..$07FF are their own RAM index.
proof fn lemma_low_index(k: u16)
    requires
        k < 0x200,
    ensures
        ((0x0600u16 + k) as u16 & 0x07FF) == 0x0600 + k,
{
    assert(((0x0600u16 + k) as u16 & 0x07FF) == 0x0600 + k) by (bit_vector)
        requires
            k < 0x200,
    ;
}

/// A program of at most 512 bytes lies in RAM from $0600 on, byte for byte,
/// and the rest of RAM is as it was.
pub proof fn lemma_loaded_readback(ram: Seq<u8>, program: Seq<u8>, n: nat)
    requires
        ram.len() == 2048,
        n <= program.len(),
        n <= 0x200,
    ensures
        loaded_ram(ram, program, n).len() == 2048,
        forall|j: int|
            0 <= j < 2048 ==> #[trigger] loaded_ram(ram, program, n)[j] == if 0x0600 <= j < 0x0600
                + n {
                program[j - 0x0600]
            } else {
                ram[j]
            },
    decreases n,
{
    if n > 0 {
        lemma_loaded_readback(ram, program, (n - 1) as nat);
        lemma_low_index((n - 1) as u16);
    }
}

impl<M: Mapper, I: BusIo> Cpu<M, I> {
    /// Load raw program bytes at $0600 and set PC to the entry point (for
    /// small test programs that run from RAM). Bytes whose address reaches
    /// $2000 or beyond go to the device or cartridge as ordinary writes.
    pub fn load_program(&mut self, program: &[u8])
        requires
            old(self).bus.wf(),
            program@.len() <= 0xFA00,
        ensures
            final(self).bus.wf(),
            final(self).regs() == (Regs { pc: PROGRAM_START, ..old(self).regs() }),
            final(self).bus.ram() == loaded_ram(old(self).bus.ram(), program@, program@.len()),
            final(self).bus.io.is_some() == old(self).bus.io.is_some(),
            final(self).bus.mapper.is_some() == old(self).bus.mapper.is_some(),
            program@.len() <= 0x1A00 ==> final(self).bus.mapper == old(self).bus.mapper,
            program@.len() <= 0x1A00 ==> final(self).bus.io == old(self).bus.io,
    {
        let ghost start = *self;
        let mut i: usize = 0;
        while i < program.len()
            invariant
                i <= program@.len() <= 0xFA00,
                self.bus.wf(),
                self.regs() == start.regs(),
                self.bus.ram() == loaded_ram(start.bus.ram(), program@, i as nat),
                self.bus.io.is_some() == start.bus.io.is_some(),
                self.bus.mapper.is_some() == start.bus.mapper.is_some(),
                program@.len() <= 0x1A00 ==> self.bus.mapper == start.bus.mapper,
                program@.len() <= 0x1A00 ==> self.bus.io == start.bus.io,
            decreases program@.len() - i,
        {
            let addr: u16 = PROGRAM_START + i as u16;
            self.bus.write(addr, program[i]);
            i = i + 1;
        }
        self.pc = PROGRAM_START;
    }
}

} // verus!
