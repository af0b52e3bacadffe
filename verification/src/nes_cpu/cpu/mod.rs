//! The 6502 (2A03) CPU core.
use vstd::prelude::*;

use crate::nes_cpu::bus::{Bus, BusIo, NoIo, is_device_write_addr, mapper_written};
use crate::nes_cpu::mapper::{Mapper, SimpleNrom};
use crate::nes_cpu::opcodes::{AddrMode, Instruction, OpKind, decode, opcode, lemma_opcode_cycles, lemma_relative_is_branch};
use trace::log_line;

pub mod flags;
pub mod laws;
pub mod lemmas;
pub mod program;
pub mod semantics;
pub mod trace;

use lemmas::{lemma_n_readback, lemma_byte_bits, lemma_stack_addr, lemma_word, lemma_split_word, lemma_indirect_hi, lemma_zp, lemma_branch, lemma_adc};
use semantics::{
    set_if, with_nz, carry, bit, adc_sum, adc_result, adc_overflow, signed, adc_flags, adc_regs, sbc_regs, compare_flags, inc8, dec8, inc16, dec16, shl1, shr1, rol, ror, shift_result, shift_carry, stack_index, sp_up, sp_down, stack_at, ram_write, pushed_status, pulled_status, lo, hi, word, branch_target, branch_regs, hi_plus_one, operand_spec, uses_operand_mode, reads_memory, reads_operand, reads_bus, writes_operand, stored_value, ram_after, load_regs, stack_regs, compare_regs, logic_regs, incdec_regs, shift_regs, branch_cond, jump_regs, flag_regs, combo_regs, regs_after, pc_after, cycles_after, lemma_flow_independent, lemma_cycles_monotone, lemma_cycles_not_branch, lemma_regs_after_bus, operand_bytes_plain, operand_word, zp_word, indirect_target, pc_plus2, indexed, resolve_spec, indirect_hi_addr, resolve_plain, Regs,
};

verus! {

/// The highest cycle count from which `step` may run another instruction:
/// the trace line it takes first shows the PPU position `cycles * 3`, which
/// overflows above this.
pub const STEP_CYCLE_LIMIT: u64 = u64::MAX / 3;

pub struct Cpu<M: Mapper = SimpleNrom, I: BusIo = NoIo> {
    pub a: u8,
    pub x: u8,
    pub y: u8,
    pub pc: u16,
    pub sp: u8,
    pub p: u8,
    pub cycles: u64,
    pub bus: Bus<M, I>,
}

/// Two buses hold the same RAM, cartridge and device.
pub open spec fn same_bus<M: Mapper, I: BusIo>(b1: Bus<M, I>, b2: Bus<M, I>) -> bool {
    b1.ram() == b2.ram() && b1.mapper == b2.mapper && b1.io == b2.io
}

/// The cartridge after `ins` stored `val` at `addr`: rewritten by the store
/// when it reaches $6000 or above, otherwise unchanged.
pub open spec fn mapper_after<M: Mapper>(
    before: Option<M>,
    after: Option<M>,
    ins: Instruction,
    addr: u16,
    val: u8,
) -> bool {
    if writes_operand(ins) && addr >= 0x6000 {
        mapper_written(before, addr, val, after)
    } else {
        after == before
    }
}

/// `regs` and `ram` are what the semantics give after `ins` for some operand
/// value read.
pub open spec fn for_some_operand<M: Mapper, I: BusIo>(
    r: Regs,
    ins: Instruction,
    addr: u16,
    bus: Bus<M, I>,
    regs: Regs,
    ram: Seq<u8>,
) -> bool {
    exists|w: u8|
        #![trigger regs_after(r, ins, addr, w, bus)]
        regs == regs_after(r, ins, addr, w, bus) && ram == ram_after(r, ins, addr, w, bus.ram())
}

/// The bus changed only in its RAM.
pub open spec fn same_devices<M: Mapper, I: BusIo>(b1: Bus<M, I>, b2: Bus<M, I>) -> bool {
    b1.mapper == b2.mapper && b1.io == b2.io
}

impl<M: Mapper, I: BusIo> Cpu<M, I> {
    pub open spec fn regs(&self) -> Regs {
        Regs {
            a: self.a,
            x: self.x,
            y: self.y,
            pc: self.pc,
            sp: self.sp,
            p: self.p,
            cycles: self.cycles,
        }
    }

    /// Power-on state: PC at $C000, SP at $FD, interrupts disabled, 7 cycles.
    pub fn new(bus: Bus<M, I>) -> (r: Self)
        ensures
            r.regs() == (Regs { a: 0, x: 0, y: 0, pc: 0xC000, sp: 0xFD, p: 0x24, cycles: 7 }),
            r.bus == bus,
    {
        Cpu { a: 0, x: 0, y: 0, pc: 0xC000, sp: 0xFD, p: 0x24, cycles: 7, bus }
    }

    // ── Flag helpers ─────────────────────────────────────────────────────────
    /// Whether any bit of `flag` is set in the status register.
    pub fn flag_val(&self, flag: u8) -> (r: bool)
        ensures
            r == (self.p & flag != 0),
    {
        self.p & flag != 0
    }

    fn flag_set(&mut self, flag: u8)
        ensures
            final(self).regs() == (Regs { p: old(self).p | flag, ..old(self).regs() }),
            final(self).bus == old(self).bus,
    {
        self.p = self.p | flag;
    }

    fn flag_clear(&mut self, flag: u8)
        ensures
            final(self).regs() == (Regs { p: old(self).p & !flag, ..old(self).regs() }),
            final(self).bus == old(self).bus,
    {
        self.p = self.p & !flag;
    }

    fn set_flag_if(&mut self, flag: u8, cond: bool)
        ensures
            final(self).regs() == (Regs { p: set_if(old(self).p, flag, cond), ..old(self).regs() }),
            final(self).bus == old(self).bus,
    {
        if cond {
            self.flag_set(flag);
        } else {
            self.flag_clear(flag);
        }
    }

    fn update_nz(&mut self, val: u8)
        ensures
            final(self).regs() == (Regs { p: with_nz(old(self).p, val), ..old(self).regs() }),
            final(self).bus == old(self).bus,
    {
        proof {
            lemma_byte_bits(val);
        }
        self.set_flag_if(flags::Z, val == 0);
        self.set_flag_if(flags::N, val & 0x80 != 0);
    }

    // ── Stack ────────────────────────────────────────────────────────────────
    pub fn push8(&mut self, val: u8)
        requires
            old(self).bus.wf(),
        ensures
            final(self).bus.wf(),
            final(self).regs() == (Regs { sp: sp_down(old(self).sp, 1), ..old(self).regs() }),
            final(self).bus.ram() == old(self).bus.ram().update(stack_index(old(self).sp), val),
            same_devices(final(self).bus, old(self).bus),
    {
        proof {
            lemma_stack_addr(self.sp);
        }
        self.bus.write(0x0100 | self.sp as u16, val);
        self.sp = self.sp.wrapping_sub(1);
    }

    pub fn pull8(&mut self) -> (r: u8)
        requires
            old(self).bus.wf(),
        ensures
            final(self).bus.wf(),
            r == stack_at(old(self).bus.ram(), old(self).sp, 1),
            final(self).regs() == (Regs { sp: sp_up(old(self).sp, 1), ..old(self).regs() }),
            final(self).bus.ram() == old(self).bus.ram(),
            same_devices(final(self).bus, old(self).bus),
    {
        self.sp = self.sp.wrapping_add(1);
        proof {
            lemma_stack_addr(self.sp);
            self.bus.lemma_peek_regions(0x0100 | self.sp as u16);
        }
        self.bus.read(0x0100 | self.sp as u16)
    }

    fn push16(&mut self, val: u16)
        requires
            old(self).bus.wf(),
        ensures
            final(self).bus.wf(),
            final(self).regs() == (Regs { sp: sp_down(old(self).sp, 2), ..old(self).regs() }),
            final(self).bus.ram() == old(self).bus.ram().update(
                stack_index(old(self).sp),
                hi(val),
            ).update(stack_index(sp_down(old(self).sp, 1)), lo(val)),
            same_devices(final(self).bus, old(self).bus),
    {
        proof {
            lemma_split_word(val);
        }
        self.push8((val >> 8) as u8);
        self.push8(val as u8);
    }

    fn pull16(&mut self) -> (r: u16)
        requires
            old(self).bus.wf(),
        ensures
            final(self).bus.wf(),
            r == word(
                stack_at(old(self).bus.ram(), old(self).sp, 1),
                stack_at(old(self).bus.ram(), old(self).sp, 2),
            ),
            final(self).regs() == (Regs { sp: sp_up(old(self).sp, 2), ..old(self).regs() }),
            final(self).bus.ram() == old(self).bus.ram(),
            same_devices(final(self).bus, old(self).bus),
    {
        let lo = self.pull8() as u16;
        let hi = self.pull8() as u16;
        proof {
            lemma_word(lo as u8, hi as u8);
        }
        (hi << 8) | lo
    }

    /// Read a little-endian vector from the cartridge.
    fn read_vector(&mut self, addr: u16) -> (r: u16)
        requires
            old(self).bus.wf(),
            addr >= 0x6000,
            addr < 0xFFFF,
        ensures
            final(self).bus.wf(),
            r == word(old(self).bus.peek_spec(addr), old(self).bus.peek_spec((addr + 1) as u16)),
            final(self).regs() == old(self).regs(),
            final(self).bus.ram() == old(self).bus.ram(),
            same_devices(final(self).bus, old(self).bus),
    {
        let ghost b0 = self.bus;
        let lo = self.bus.read(addr) as u16;
        proof {
            b0.lemma_peek_depends(self.bus, (addr + 1) as u16);
        }
        let hi = self.bus.read(addr + 1) as u16;
        proof {
            lemma_word(lo as u8, hi as u8);
        }
        (hi << 8) | lo
    }


    /// Read one byte at `a` through the bus.
    fn bus_read(&mut self, a: u16) -> (r: u8)
        requires
            old(self).bus.wf(),
        ensures
            final(self).bus.wf(),
            final(self).regs() == old(self).regs(),
            final(self).bus.ram() == old(self).bus.ram(),
            final(self).bus.mapper == old(self).bus.mapper,
            final(self).bus.io.is_some() == old(self).bus.io.is_some(),
            !old(self).bus.reads_device(a) ==> r == old(self).bus.peek_spec(a) && final(self).bus
                == old(self).bus,
    {
        self.bus.read(a)
    }

    // ── Addressing mode resolution ────────────────────────────────────────────
    /// What operand resolution guarantees: RAM and cartridge untouched, only PC
    /// moves; when no operand byte is a device register, the exact result.
    pub open spec fn resolved(old: Self, new: Self, mode: AddrMode, r: (u16, bool)) -> bool {
        &&& Self::resolved_as(
            old,
            new,
            resolve_spec(old.bus, mode, old.pc, old.x, old.y),
            resolve_plain(old.bus, mode, old.pc),
            r,
        )
        &&& mode == AddrMode::Indirect ==> !r.1
    }

    /// Operand resolution with the given expected outcome, exact when `plain`.
    pub open spec fn resolved_as(
        old: Self,
        new: Self,
        expect: (u16, bool, u16),
        plain: bool,
        r: (u16, bool),
    ) -> bool {
        &&& new.bus.wf()
        &&& new.bus.ram() == old.bus.ram()
        &&& new.bus.mapper == old.bus.mapper
        &&& new.bus.io.is_some() == old.bus.io.is_some()
        &&& new.regs() == (Regs { pc: expect.2, ..old.regs() })
        &&& plain ==> {
            &&& r == (expect.0, expect.1)
            &&& new.bus == old.bus
        }
    }

    /// Fetch the operand bytes at PC for `mode`; returns the effective address
    /// and whether indexing crossed a page.
    #[verifier::spinoff_prover]
    #[verifier::rlimit(50)]
    fn resolve_addr(&mut self, mode: AddrMode) -> (r: (u16, bool))
        requires
            old(self).bus.wf(),
        ensures
            Self::resolved(*old(self), *final(self), mode, r),
    {
        match mode {
            AddrMode::Implied | AddrMode::Accumulator => (0, false),
            AddrMode::Immediate => {
                let addr = self.pc;
                self.pc = self.pc.wrapping_add(1);
                (addr, false)
            },
            AddrMode::ZeroPage => self.resolve_zero_page(),
            AddrMode::ZeroPageX => self.resolve_zero_page_x(),
            AddrMode::ZeroPageY => self.resolve_zero_page_y(),
            AddrMode::Absolute => self.resolve_absolute(),
            AddrMode::AbsoluteX => self.resolve_absolute_x(),
            AddrMode::AbsoluteY => self.resolve_absolute_y(),
            AddrMode::Indirect => self.resolve_indirect(),
            AddrMode::IndirectX => self.resolve_indirect_x(),
            AddrMode::IndirectY => self.resolve_indirect_y(),
            AddrMode::Relative => self.resolve_relative(),
        }
    }


    /// zp: one operand byte.
    #[verifier::spinoff_prover]
    fn resolve_zero_page(&mut self) -> (r: (u16, bool))
        requires
            old(self).bus.wf(),
        ensures
            Self::resolved_as(
                *old(self),
                *final(self),
                (old(self).bus.peek_spec(old(self).pc) as u16, false, inc16(old(self).pc)),
                !old(self).bus.reads_device(old(self).pc),
                r,
            ),
    {
        let base = self.bus_read(self.pc);
        self.pc = self.pc.wrapping_add(1);
        (base as u16, false)
    }

    /// zp,X: wraps within the zero page.
    #[verifier::spinoff_prover]
    fn resolve_zero_page_x(&mut self) -> (r: (u16, bool))
        requires
            old(self).bus.wf(),
        ensures
            Self::resolved_as(
                *old(self),
                *final(self),
                (((old(self).bus.peek_spec(old(self).pc) + old(self).x) % 256) as u16, false, inc16(old(self).pc)),
                !old(self).bus.reads_device(old(self).pc),
                r,
            ),
    {
        let base = self.bus_read(self.pc);
        self.pc = self.pc.wrapping_add(1);
        let e = base.wrapping_add(self.x);
        assert(e == (base + self.x) % 256);
        (e as u16, false)
    }

    /// zp,Y: wraps within the zero page.
    #[verifier::spinoff_prover]
    fn resolve_zero_page_y(&mut self) -> (r: (u16, bool))
        requires
            old(self).bus.wf(),
        ensures
            Self::resolved_as(
                *old(self),
                *final(self),
                (((old(self).bus.peek_spec(old(self).pc) + old(self).y) % 256) as u16, false, inc16(old(self).pc)),
                !old(self).bus.reads_device(old(self).pc),
                r,
            ),
    {
        let base = self.bus_read(self.pc);
        self.pc = self.pc.wrapping_add(1);
        let e = base.wrapping_add(self.y);
        assert(e == (base + self.y) % 256);
        (e as u16, false)
    }

    /// Relative: the raw offset byte.
    #[verifier::spinoff_prover]
    fn resolve_relative(&mut self) -> (r: (u16, bool))
        requires
            old(self).bus.wf(),
        ensures
            Self::resolved_as(
                *old(self),
                *final(self),
                (old(self).bus.peek_spec(old(self).pc) as u16, false, inc16(old(self).pc)),
                !old(self).bus.reads_device(old(self).pc),
                r,
            ),
    {
        let base = self.bus_read(self.pc);
        self.pc = self.pc.wrapping_add(1);
        (base as u16, false)
    }

    /// abs: two operand bytes, little-endian.
    #[verifier::spinoff_prover]
    fn resolve_absolute(&mut self) -> (r: (u16, bool))
        requires
            old(self).bus.wf(),
        ensures
            Self::resolved_as(
                *old(self),
                *final(self),
                (operand_word(old(self).bus, old(self).pc), false, pc_plus2(old(self).pc)),
                !old(self).bus.reads_device(old(self).pc) && !old(self).bus.reads_device(inc16(old(self).pc)),
                r,
            ),
    {
        let lo = self.bus_read(self.pc) as u16;
        let hi = self.bus_read(self.pc.wrapping_add(1)) as u16;
        self.pc = self.pc.wrapping_add(2);
        proof {
            lemma_word(lo as u8, hi as u8);
        }
        let base = (hi << 8) | lo;
        (base, false)
    }

    /// abs,X: may cross a page.
    #[verifier::spinoff_prover]
    fn resolve_absolute_x(&mut self) -> (r: (u16, bool))
        requires
            old(self).bus.wf(),
        ensures
            Self::resolved_as(
                *old(self),
                *final(self),
                indexed(operand_word(old(self).bus, old(self).pc), old(self).x, pc_plus2(old(self).pc)),
                !old(self).bus.reads_device(old(self).pc) && !old(self).bus.reads_device(inc16(old(self).pc)),
                r,
            ),
    {
        let lo = self.bus_read(self.pc) as u16;
        let hi = self.bus_read(self.pc.wrapping_add(1)) as u16;
        self.pc = self.pc.wrapping_add(2);
        proof {
            lemma_word(lo as u8, hi as u8);
        }
        let base = (hi << 8) | lo;
        let addr = base.wrapping_add(self.x as u16);
        proof {
            lemma_split_word(base);
            lemma_split_word(addr);
        }
        let page_crossed = (base & 0xFF00) != (addr & 0xFF00);
        (addr, page_crossed)
    }

    /// abs,Y: may cross a page.
    #[verifier::spinoff_prover]
    fn resolve_absolute_y(&mut self) -> (r: (u16, bool))
        requires
            old(self).bus.wf(),
        ensures
            Self::resolved_as(
                *old(self),
                *final(self),
                indexed(operand_word(old(self).bus, old(self).pc), old(self).y, pc_plus2(old(self).pc)),
                !old(self).bus.reads_device(old(self).pc) && !old(self).bus.reads_device(inc16(old(self).pc)),
                r,
            ),
    {
        let lo = self.bus_read(self.pc) as u16;
        let hi = self.bus_read(self.pc.wrapping_add(1)) as u16;
        self.pc = self.pc.wrapping_add(2);
        proof {
            lemma_word(lo as u8, hi as u8);
        }
        let base = (hi << 8) | lo;
        let addr = base.wrapping_add(self.y as u16);
        proof {
            lemma_split_word(base);
            lemma_split_word(addr);
        }
        let page_crossed = (base & 0xFF00) != (addr & 0xFF00);
        (addr, page_crossed)
    }

    /// JMP (ptr). 6502 page-wrap bug: if the pointer's low byte is 0xFF, the
    /// high byte is read from the start of the same page.
    #[verifier::spinoff_prover]
    fn resolve_indirect(&mut self) -> (r: (u16, bool))
        requires
            old(self).bus.wf(),
        ensures
            Self::resolved_as(
                *old(self),
                *final(self),
                (indirect_target(old(self).bus, operand_word(old(self).bus, old(self).pc)), false, pc_plus2(old(self).pc)),
                resolve_plain(old(self).bus, AddrMode::Indirect, old(self).pc),
                r,
            ),
            !r.1,
    {
        let lo = self.bus_read(self.pc) as u16;
        let hi = self.bus_read(self.pc.wrapping_add(1)) as u16;
        self.pc = self.pc.wrapping_add(2);
        proof {
            lemma_word(lo as u8, hi as u8);
        }
        let ptr = (hi << 8) | lo;
        let lo2 = self.bus_read(ptr) as u16;
        proof {
            lemma_indirect_hi(ptr);
        }
        let hi2 = self.bus_read((ptr & 0xFF00) | (ptr.wrapping_add(1) & 0x00FF)) as u16;
        proof {
            lemma_word(lo2 as u8, hi2 as u8);
        }
        ((hi2 << 8) | lo2, false)
    }

    /// (zp,X): pointer in the zero page, indexed before the lookup.
    #[verifier::spinoff_prover]
    fn resolve_indirect_x(&mut self) -> (r: (u16, bool))
        requires
            old(self).bus.wf(),
        ensures
            Self::resolved_as(
                *old(self),
                *final(self),
                (zp_word(old(self).bus, ((old(self).bus.peek_spec(old(self).pc) + old(self).x) % 256) as u8), false, inc16(old(self).pc)),
                !old(self).bus.reads_device(old(self).pc),
                r,
            ),
    {
        let base = self.bus_read(self.pc);
        self.pc = self.pc.wrapping_add(1);
        let ptr = base.wrapping_add(self.x) as u16;
        proof {
            lemma_zp(base, self.x);
        }
        let lo = self.bus_read(ptr & 0x00FF) as u16;
        let hi = self.bus_read((ptr.wrapping_add(1)) & 0x00FF) as u16;
        proof {
            lemma_word(lo as u8, hi as u8);
        }
        ((hi << 8) | lo, false)
    }

    /// (zp),Y: pointer in the zero page, indexed after the lookup.
    #[verifier::spinoff_prover]
    fn resolve_indirect_y(&mut self) -> (r: (u16, bool))
        requires
            old(self).bus.wf(),
        ensures
            Self::resolved_as(
                *old(self),
                *final(self),
                indexed(zp_word(old(self).bus, old(self).bus.peek_spec(old(self).pc)), old(self).y, inc16(old(self).pc)),
                !old(self).bus.reads_device(old(self).pc),
                r,
            ),
    {
        let zp = self.bus_read(self.pc);
        let ptr = zp as u16;
        self.pc = self.pc.wrapping_add(1);
        proof {
            lemma_zp(zp, 0);
        }
        let lo = self.bus_read(ptr & 0x00FF) as u16;
        let hi = self.bus_read((ptr.wrapping_add(1)) & 0x00FF) as u16;
        proof {
            lemma_word(lo as u8, hi as u8);
        }
        let base = (hi << 8) | lo;
        let addr = base.wrapping_add(self.y as u16);
        proof {
            lemma_split_word(base);
            lemma_split_word(addr);
        }
        let page_crossed = (base & 0xFF00) != (addr & 0xFF00);
        (addr, page_crossed)
    }


    // ── Operand read ─────────────────────────────────────────────────────────
    #[verifier::spinoff_prover]
    fn operand_read(&mut self, mode: AddrMode, addr: u16) -> (r: u8)
        requires
            old(self).bus.wf(),
        ensures
            final(self).bus.wf(),
            final(self).regs() == old(self).regs(),
            final(self).bus.ram() == old(self).bus.ram(),
            final(self).bus.mapper == old(self).bus.mapper,
            final(self).bus.io.is_some() == old(self).bus.io.is_some(),
            mode == AddrMode::Accumulator ==> r == old(self).a && final(self).bus == old(self).bus,
            mode != AddrMode::Accumulator && !old(self).bus.reads_device(addr) ==> r == old(
                self,
            ).bus.peek_spec(addr) && final(self).bus == old(self).bus,
    {
        match mode {
            AddrMode::Accumulator => self.a,
            _ => self.bus_read(addr),
        }
    }

    /// The operand value an instruction works on, read before it executes.
    #[verifier::spinoff_prover]
    fn fetch_operand(&mut self, instr: Instruction, addr: u16) -> (v: u8)
        requires
            old(self).bus.wf(),
        ensures
            final(self).bus.wf(),
            final(self).regs() == old(self).regs(),
            final(self).bus.ram() == old(self).bus.ram(),
            final(self).bus.mapper == old(self).bus.mapper,
            final(self).bus.io.is_some() == old(self).bus.io.is_some(),
            !(reads_bus(instr) && old(self).bus.reads_device(addr)) ==> v == operand_spec(
                old(self).regs(),
                instr,
                addr,
                old(self).bus,
            ) && final(self).bus == old(self).bus,
    {
        match instr.kind {
            OpKind::Lda | OpKind::Ldx | OpKind::Ldy | OpKind::Adc | OpKind::Sbc | OpKind::And
            | OpKind::Ora | OpKind::Eor | OpKind::Asl | OpKind::Lsr | OpKind::Rol | OpKind::Ror
            | OpKind::Cmp | OpKind::Cpx | OpKind::Cpy => self.operand_read(instr.mode, addr),
            OpKind::Inc | OpKind::Dec | OpKind::Bit | OpKind::Lax | OpKind::Dcp | OpKind::Isc
            | OpKind::Slo | OpKind::Rla | OpKind::Sre | OpKind::Rra | OpKind::Alr | OpKind::Anc
            | OpKind::Arr | OpKind::Axs | OpKind::Xaa | OpKind::Las => self.bus_read(addr),
            OpKind::Nop | OpKind::UnopNop => {
                // Unofficial NOPs may read memory (for cycle accuracy) but discard it.
                if instr.mode != AddrMode::Implied && instr.mode != AddrMode::Accumulator {
                    self.bus_read(addr)
                } else {
                    0
                }
            },
            _ => 0,
        }
    }

    // ── ADC / SBC core ────────────────────────────────────────────────────────
    fn exec_adc_val(&mut self, val: u8)
        ensures
            final(self).regs() == adc_regs(old(self).regs(), val),
            final(self).bus == old(self).bus,
    {
        let carry = if self.flag_val(flags::C) { 1u16 } else { 0u16 };
        let sum = self.a as u16 + val as u16 + carry;
        let result = sum as u8;
        proof {
            lemma_adc(self.a, val, carry);
        }
        let overflow = (!(self.a ^ val) & (self.a ^ result)) & 0x80 != 0;
        self.set_flag_if(flags::C, sum > 0xFF);
        self.set_flag_if(flags::V, overflow);
        self.a = result;
        self.update_nz(self.a);
    }

    fn exec_sbc_val(&mut self, val: u8)
        ensures
            final(self).regs() == sbc_regs(old(self).regs(), val),
            final(self).bus == old(self).bus,
    {
        proof {
            lemma_byte_bits(val);
        }
        self.exec_adc_val(!val);
    }

    // ── Branch ───────────────────────────────────────────────────────────────
    fn branch(&mut self, condition: bool, offset: u16)
        requires
            old(self).cycles <= u64::MAX - 2,
        ensures
            final(self).regs() == branch_regs(old(self).regs(), condition, offset),
            final(self).bus == old(self).bus,
    {
        if condition {
            proof {
                lemma_branch(self.pc, offset);
            }
            let offset_signed = offset as i8 as i32;
            let new_pc = (self.pc as i32 + offset_signed) as u16;
            proof {
                lemma_split_word(self.pc);
                lemma_split_word(new_pc);
            }
            self.cycles = self.cycles + if (self.pc & 0xFF00) != (new_pc & 0xFF00) {
                2
            } else {
                1
            };
            self.pc = new_pc;
        }
    }

    // ── Compare helper ────────────────────────────────────────────────────────
    fn compare(&mut self, reg: u8, val: u8)
        ensures
            final(self).regs() == (Regs {
                p: compare_flags(old(self).p, reg, val),
                ..old(self).regs()
            }),
            final(self).bus == old(self).bus,
    {
        let diff = reg.wrapping_sub(val);
        self.set_flag_if(flags::C, reg >= val);
        self.update_nz(diff);
    }


    // ── Execute ──────────────────────────────────────────────────────────────
    /// What executing `ins` with operand value `v` does to the CPU and the bus.
    pub open spec fn applied(old: Self, new: Self, ins: Instruction, addr: u16, v: u8) -> bool {
        Self::applied_with(old, new, ins, addr, v, regs_after(old.regs(), ins, addr, v, old.bus))
    }

    /// As `applied`, with the resulting registers given as `expect`.
    pub open spec fn applied_with(
        old: Self,
        new: Self,
        ins: Instruction,
        addr: u16,
        v: u8,
        expect: Regs,
    ) -> bool {
        &&& new.bus.wf()
        &&& new.regs() == expect
        &&& new.bus.ram() == ram_after(old.regs(), ins, addr, v, old.bus.ram())
        &&& new.bus.io.is_some() == old.bus.io.is_some()
        &&& new.bus.mapper.is_some() == old.bus.mapper.is_some()
        &&& mapper_after(old.bus.mapper, new.bus.mapper, ins, addr, stored_value(old.regs(), ins, addr, v))
        &&& !(writes_operand(ins) && is_device_write_addr(addr)) ==> new.bus.io == old.bus.io
    }

    /// Loads and register transfers.
    #[verifier::spinoff_prover]
    fn apply_load(&mut self, instr: Instruction, addr: u16, val: u8)
        requires
            old(self).bus.wf(),
            instr.kind == OpKind::Lda || instr.kind == OpKind::Ldx || instr.kind == OpKind::Ldy
                || instr.kind == OpKind::Tax || instr.kind == OpKind::Tay || instr.kind
                == OpKind::Txa || instr.kind == OpKind::Tya || instr.kind == OpKind::Tsx
                || instr.kind == OpKind::Txs || instr.kind == OpKind::Lax || instr.kind
                == OpKind::Las || instr.kind == OpKind::Xaa,
        ensures
            Self::applied_with(
                *old(self),
                *final(self),
                instr,
                addr,
                val,
                load_regs(old(self).regs(), instr.kind, val),
            ),
    {
        match instr.kind {
            OpKind::Lda => {
                self.a = val;
                self.update_nz(self.a);
            },
            OpKind::Ldx => {
                self.x = val;
                self.update_nz(self.x);
            },
            OpKind::Ldy => {
                self.y = val;
                self.update_nz(self.y);
            },
            OpKind::Tax => {
                self.x = self.a;
                self.update_nz(self.x);
            },
            OpKind::Tay => {
                self.y = self.a;
                self.update_nz(self.y);
            },
            OpKind::Txa => {
                self.a = self.x;
                self.update_nz(self.a);
            },
            OpKind::Tya => {
                self.a = self.y;
                self.update_nz(self.a);
            },
            OpKind::Tsx => {
                self.x = self.sp;
                self.update_nz(self.x);
            },
            OpKind::Txs => self.sp = self.x,
            OpKind::Lax => {
                self.a = val;
                self.x = val;
                self.update_nz(val);
            },
            OpKind::Las => {
                let v = val & self.sp;
                self.a = v;
                self.x = v;
                self.sp = v;
                self.update_nz(v);
            },
            _ => {
                // XAA: highly unstable; approximated as A = X AND imm.
                self.a = self.x & val;
                self.update_nz(self.a);
            },
        }
    }

    /// Write `val` to `addr` as the operand store of `instr`.
    #[verifier::spinoff_prover]
    fn store(&mut self, instr: Instruction, addr: u16, val: u8, operand: u8)
        requires
            old(self).bus.wf(),
            writes_operand(instr),
            val == stored_value(old(self).regs(), instr, addr, operand),
            ram_after(old(self).regs(), instr, addr, operand, old(self).bus.ram()) == ram_write(
                old(self).bus.ram(),
                addr,
                val,
            ),
        ensures
            final(self).bus.wf(),
            final(self).regs() == old(self).regs(),
            final(self).bus.ram() == ram_after(
                old(self).regs(),
                instr,
                addr,
                operand,
                old(self).bus.ram(),
            ),
            final(self).bus.io.is_some() == old(self).bus.io.is_some(),
            final(self).bus.mapper.is_some() == old(self).bus.mapper.is_some(),
            addr < 0x6000 ==> final(self).bus.mapper == old(self).bus.mapper,
            addr >= 0x6000 ==> mapper_written(old(self).bus.mapper, addr, val, final(self).bus.mapper),
            !is_device_write_addr(addr) ==> final(self).bus.io == old(self).bus.io,
    {
        self.bus.write(addr, val);
    }

    /// Stores of registers.
    #[verifier::spinoff_prover]
    fn apply_store(&mut self, instr: Instruction, addr: u16, val: u8)
        requires
            old(self).bus.wf(),
            instr.kind == OpKind::Sta || instr.kind == OpKind::Stx || instr.kind == OpKind::Sty
                || instr.kind == OpKind::Sax,
        ensures
            Self::applied_with(
                *old(self),
                *final(self),
                instr,
                addr,
                val,
                old(self).regs(),
            ),
    {
        let v = match instr.kind {
            OpKind::Sta => self.a,
            OpKind::Stx => self.x,
            OpKind::Sty => self.y,
            _ => self.a & self.x,
        };
        self.store(instr, addr, v, val);
    }

    /// The unstable stores that AND the value with the address high byte + 1.
    #[verifier::spinoff_prover]
    fn apply_store_unstable(&mut self, instr: Instruction, addr: u16, val: u8)
        requires
            old(self).bus.wf(),
            instr.kind == OpKind::Shy || instr.kind == OpKind::Shx || instr.kind == OpKind::Tas
                || instr.kind == OpKind::Ahx,
        ensures
            Self::applied_with(
                *old(self),
                *final(self),
                instr,
                addr,
                val,
                if instr.kind == OpKind::Tas { Regs { sp: old(self).a & old(self).x, ..old(self).regs() } } else { old(self).regs() },
            ),
    {
        proof {
            lemma_split_word(addr);
        }
        let hi = (addr >> 8) as u8;
        let h1 = hi.wrapping_add(1);
        assert(h1 == hi_plus_one(addr));
        match instr.kind {
            OpKind::Shy => {
                let result = self.y & h1;
                self.store(instr, addr, result, val);
            },
            OpKind::Shx => {
                let result = self.x & h1;
                self.store(instr, addr, result, val);
            },
            OpKind::Tas => {
                let result = (self.a & self.x) & h1;
                self.store(instr, addr, result, val);
                self.sp = self.a & self.x;
            },
            _ => {
                let result = self.a & self.x & h1;
                self.store(instr, addr, result, val);
            },
        }
    }


    /// Stack pushes and pulls of A and P.
    #[verifier::spinoff_prover]
    fn apply_stack(&mut self, instr: Instruction, addr: u16, val: u8)
        requires
            old(self).bus.wf(),
            instr.kind == OpKind::Pha || instr.kind == OpKind::Php || instr.kind == OpKind::Pla
                || instr.kind == OpKind::Plp,
        ensures
            Self::applied_with(
                *old(self),
                *final(self),
                instr,
                addr,
                val,
                stack_regs(old(self).regs(), instr.kind, old(self).bus.ram()),
            ),
    {
        match instr.kind {
            OpKind::Pha => self.push8(self.a),
            OpKind::Php => self.push8(self.p | flags::B | flags::U),
            OpKind::Pla => {
                self.a = self.pull8();
                self.update_nz(self.a);
            },
            _ => {
                self.p = (self.pull8() & !flags::B) | flags::U;
            },
        }
    }

    /// Add with carry and subtract with borrow.
    #[verifier::spinoff_prover]
    fn apply_add(&mut self, instr: Instruction, addr: u16, val: u8)
        requires
            old(self).bus.wf(),
            instr.kind == OpKind::Adc || instr.kind == OpKind::Sbc,
        ensures
            Self::applied_with(
                *old(self),
                *final(self),
                instr,
                addr,
                val,
                if instr.kind == OpKind::Adc { adc_regs(old(self).regs(), val) } else { sbc_regs(old(self).regs(), val) },
            ),
    {
        match instr.kind {
            OpKind::Adc => self.exec_adc_val(val),
            _ => self.exec_sbc_val(val),
        }
    }

    /// Compares, and AXS ((A AND X) - imm -> X).
    #[verifier::spinoff_prover]
    fn apply_compare(&mut self, instr: Instruction, addr: u16, val: u8)
        requires
            old(self).bus.wf(),
            instr.kind == OpKind::Cmp || instr.kind == OpKind::Cpx || instr.kind == OpKind::Cpy
                || instr.kind == OpKind::Axs,
        ensures
            Self::applied_with(
                *old(self),
                *final(self),
                instr,
                addr,
                val,
                compare_regs(old(self).regs(), instr.kind, val),
            ),
    {
        match instr.kind {
            OpKind::Cmp => self.compare(self.a, val),
            OpKind::Cpx => self.compare(self.x, val),
            OpKind::Cpy => self.compare(self.y, val),
            _ => {
                let ax = self.a & self.x;
                self.set_flag_if(flags::C, ax >= val);
                self.x = ax.wrapping_sub(val);
                self.update_nz(self.x);
            },
        }
    }

    /// AND, ORA, EOR and BIT on the operand value.
    #[verifier::spinoff_prover]
    fn apply_logic(&mut self, instr: Instruction, addr: u16, val: u8)
        requires
            old(self).bus.wf(),
            instr.kind == OpKind::And || instr.kind == OpKind::Ora || instr.kind == OpKind::Eor
                || instr.kind == OpKind::Bit,
        ensures
            Self::applied_with(
                *old(self),
                *final(self),
                instr,
                addr,
                val,
                logic_regs(old(self).regs(), instr.kind, val),
            ),
    {
        proof {
            lemma_byte_bits(val);
        }
        match instr.kind {
            OpKind::And => {
                self.a = self.a & val;
                self.update_nz(self.a);
            },
            OpKind::Ora => {
                self.a = self.a | val;
                self.update_nz(self.a);
            },
            OpKind::Eor => {
                self.a = self.a ^ val;
                self.update_nz(self.a);
            },
            _ => {
                self.set_flag_if(flags::Z, self.a & val == 0);
                self.set_flag_if(flags::V, val & 0x40 != 0);
                self.set_flag_if(flags::N, val & 0x80 != 0);
            },
        }
    }

    /// Increments and decrements of memory and index registers.
    #[verifier::spinoff_prover]
    fn apply_incdec(&mut self, instr: Instruction, addr: u16, val: u8)
        requires
            old(self).bus.wf(),
            instr.kind == OpKind::Inc || instr.kind == OpKind::Dec || instr.kind == OpKind::Inx
                || instr.kind == OpKind::Iny || instr.kind == OpKind::Dex || instr.kind
                == OpKind::Dey,
        ensures
            Self::applied_with(
                *old(self),
                *final(self),
                instr,
                addr,
                val,
                incdec_regs(old(self).regs(), instr.kind, val),
            ),
    {
        proof {
            lemma_byte_bits(val);
            lemma_byte_bits(self.x);
            lemma_byte_bits(self.y);
        }
        match instr.kind {
            OpKind::Inc => {
                let v = val.wrapping_add(1);
                self.store(instr, addr, v, val);
                self.update_nz(v);
            },
            OpKind::Dec => {
                let v = val.wrapping_sub(1);
                self.store(instr, addr, v, val);
                self.update_nz(v);
            },
            OpKind::Inx => {
                self.x = self.x.wrapping_add(1);
                self.update_nz(self.x);
            },
            OpKind::Iny => {
                self.y = self.y.wrapping_add(1);
                self.update_nz(self.y);
            },
            OpKind::Dex => {
                self.x = self.x.wrapping_sub(1);
                self.update_nz(self.x);
            },
            _ => {
                self.y = self.y.wrapping_sub(1);
                self.update_nz(self.y);
            },
        }
    }

    /// Shifts and rotates of the accumulator or memory.
    #[verifier::spinoff_prover]
    fn apply_shift(&mut self, instr: Instruction, addr: u16, val: u8)
        requires
            old(self).bus.wf(),
            instr.kind == OpKind::Asl || instr.kind == OpKind::Lsr || instr.kind == OpKind::Rol
                || instr.kind == OpKind::Ror,
        ensures
            Self::applied_with(
                *old(self),
                *final(self),
                instr,
                addr,
                val,
                shift_regs(old(self).regs(), instr.kind, instr.mode, val),
            ),
    {
        proof {
            lemma_byte_bits(val);
            lemma_byte_bits(val << 1u8);
            lemma_byte_bits(val >> 1u8);
        }
        let c = self.flag_val(flags::C);
        let result = match instr.kind {
            OpKind::Asl => val << 1u8,
            OpKind::Lsr => val >> 1u8,
            OpKind::Rol => {
                let carry_in: u8 = if c { 1 } else { 0 };
                (val << 1u8) | carry_in
            },
            _ => {
                let carry_in: u8 = if c { 0x80 } else { 0 };
                (val >> 1u8) | carry_in
            },
        };
        assert(result == shift_result(instr.kind, val, c));
        let out = match instr.kind {
            OpKind::Asl | OpKind::Rol => val & 0x80 != 0,
            _ => val & 0x01 != 0,
        };
        if instr.mode != AddrMode::Accumulator {
            self.store(instr, addr, result, val);
        }
        self.set_flag_if(flags::C, out);
        self.update_nz(result);
        if instr.mode == AddrMode::Accumulator {
            self.a = result;
        }
    }


    /// Conditional branches.
    #[verifier::spinoff_prover]
    fn apply_branch(&mut self, instr: Instruction, addr: u16, val: u8)
        requires
            old(self).bus.wf(),
            old(self).cycles <= u64::MAX - 2,
            instr.kind == OpKind::Bcc || instr.kind == OpKind::Bcs || instr.kind == OpKind::Beq
                || instr.kind == OpKind::Bmi || instr.kind == OpKind::Bne || instr.kind
                == OpKind::Bpl || instr.kind == OpKind::Bvc || instr.kind == OpKind::Bvs,
        ensures
            Self::applied_with(
                *old(self),
                *final(self),
                instr,
                addr,
                val,
                branch_regs(old(self).regs(), branch_cond(instr.kind, old(self).p), addr),
            ),
    {
        let cond = match instr.kind {
            OpKind::Bcc => !self.flag_val(flags::C),
            OpKind::Bcs => self.flag_val(flags::C),
            OpKind::Beq => self.flag_val(flags::Z),
            OpKind::Bmi => self.flag_val(flags::N),
            OpKind::Bne => !self.flag_val(flags::Z),
            OpKind::Bpl => !self.flag_val(flags::N),
            OpKind::Bvc => !self.flag_val(flags::V),
            _ => self.flag_val(flags::V),
        };
        self.branch(cond, addr);
    }

    /// Flag sets and clears, and the NOPs (whose operand, if any, was
    /// already read and is discarded).
    #[verifier::spinoff_prover]
    fn apply_flag(&mut self, instr: Instruction, addr: u16, val: u8)
        requires
            old(self).bus.wf(),
            instr.kind == OpKind::Clc || instr.kind == OpKind::Cld || instr.kind == OpKind::Cli
                || instr.kind == OpKind::Clv || instr.kind == OpKind::Sec || instr.kind
                == OpKind::Sed || instr.kind == OpKind::Sei || instr.kind == OpKind::Nop
                || instr.kind == OpKind::UnopNop,
        ensures
            Self::applied_with(
                *old(self),
                *final(self),
                instr,
                addr,
                val,
                flag_regs(old(self).regs(), instr.kind),
            ),
    {
        match instr.kind {
            OpKind::Clc => self.flag_clear(flags::C),
            OpKind::Cld => self.flag_clear(flags::D),
            OpKind::Cli => self.flag_clear(flags::I),
            OpKind::Clv => self.flag_clear(flags::V),
            OpKind::Sec => self.flag_set(flags::C),
            OpKind::Sed => self.flag_set(flags::D),
            OpKind::Sei => self.flag_set(flags::I),
            _ => {},
        }
    }

    /// JMP, JSR and KIL.
    #[verifier::spinoff_prover]
    fn apply_jump(&mut self, instr: Instruction, addr: u16, val: u8)
        requires
            old(self).bus.wf(),
            instr.kind == OpKind::Jmp || instr.kind == OpKind::Jsr || instr.kind == OpKind::Kil,
        ensures
            Self::applied_with(
                *old(self),
                *final(self),
                instr,
                addr,
                val,
                jump_regs(old(self).regs(), instr.kind, addr, old(self).bus),
            ),
    {
        match instr.kind {
            OpKind::Jmp => self.pc = addr,
            OpKind::Jsr => {
                // Push the return address - 1 (the last byte of this instruction).
                self.push16(self.pc.wrapping_sub(1));
                self.pc = addr;
            },
            _ => {
                // KIL/JAM: halt the CPU on this instruction.
                self.pc = self.pc.wrapping_sub(1);
            },
        }
    }

    /// RTS and RTI.
    #[verifier::spinoff_prover]
    fn apply_return(&mut self, instr: Instruction, addr: u16, val: u8)
        requires
            old(self).bus.wf(),
            instr.kind == OpKind::Rts || instr.kind == OpKind::Rti,
        ensures
            Self::applied_with(
                *old(self),
                *final(self),
                instr,
                addr,
                val,
                jump_regs(old(self).regs(), instr.kind, addr, old(self).bus),
            ),
    {
        match instr.kind {
            OpKind::Rts => {
                self.pc = self.pull16().wrapping_add(1);
            },
            _ => {
                self.p = (self.pull8() & !flags::B) | flags::U;
                self.pc = self.pull16();
            },
        }
    }

    /// BRK: push PC+1 (skipping the padding byte) and P with B set, set I,
    /// then jump through the IRQ vector.
    #[verifier::spinoff_prover]
    #[verifier::rlimit(40)]
    fn apply_brk(&mut self, instr: Instruction, addr: u16, val: u8)
        requires
            old(self).bus.wf(),
            instr.kind == OpKind::Brk,
        ensures
            Self::applied_with(
                *old(self),
                *final(self),
                instr,
                addr,
                val,
                jump_regs(old(self).regs(), instr.kind, addr, old(self).bus),
            ),
    {
        self.pc = self.pc.wrapping_add(1);
        self.push16(self.pc);
        self.push8(self.p | flags::B | flags::U);
        self.flag_set(flags::I);
        proof {
            old(self).bus.lemma_peek_depends(self.bus, 0xFFFE);
            old(self).bus.lemma_peek_depends(self.bus, 0xFFFF);
        }
        self.pc = self.read_vector(0xFFFE);
    }

    /// The unofficial read-modify-write combinations.
    #[verifier::spinoff_prover]
    fn apply_combo_rmw(&mut self, instr: Instruction, addr: u16, val: u8)
        requires
            old(self).bus.wf(),
            instr.kind == OpKind::Dcp || instr.kind == OpKind::Isc || instr.kind == OpKind::Slo
                || instr.kind == OpKind::Rla || instr.kind == OpKind::Sre || instr.kind
                == OpKind::Rra,
        ensures
            Self::applied_with(
                *old(self),
                *final(self),
                instr,
                addr,
                val,
                combo_regs(old(self).regs(), instr.kind, val),
            ),
    {
        proof {
            lemma_byte_bits(val);
            lemma_byte_bits(val << 1u8);
            lemma_byte_bits(val >> 1u8);
        }
        match instr.kind {
            OpKind::Dcp => {
                let v = val.wrapping_sub(1);
                self.store(instr, addr, v, val);
                self.compare(self.a, v);
            },
            OpKind::Isc => {
                let v = val.wrapping_add(1);
                self.store(instr, addr, v, val);
                self.exec_sbc_val(v);
            },
            OpKind::Slo => {
                let shifted = val << 1u8;
                self.store(instr, addr, shifted, val);
                self.set_flag_if(flags::C, val & 0x80 != 0);
                self.a = self.a | shifted;
                self.update_nz(self.a);
            },
            OpKind::Rla => {
                let carry_in: u8 = if self.flag_val(flags::C) { 1 } else { 0 };
                let rotated = (val << 1u8) | carry_in;
                self.store(instr, addr, rotated, val);
                self.set_flag_if(flags::C, val & 0x80 != 0);
                self.a = self.a & rotated;
                self.update_nz(self.a);
            },
            OpKind::Sre => {
                let shifted = val >> 1u8;
                self.store(instr, addr, shifted, val);
                self.set_flag_if(flags::C, val & 0x01 != 0);
                self.a = self.a ^ shifted;
                self.update_nz(self.a);
            },
            _ => {
                let carry_in: u8 = if self.flag_val(flags::C) { 0x80 } else { 0 };
                let rotated = (val >> 1u8) | carry_in;
                self.store(instr, addr, rotated, val);
                self.set_flag_if(flags::C, val & 0x01 != 0);
                self.exec_adc_val(rotated);
            },
        }
    }

    /// The unofficial immediate combinations ALR, ANC and ARR.
    #[verifier::spinoff_prover]
    fn apply_combo_imm(&mut self, instr: Instruction, addr: u16, val: u8)
        requires
            old(self).bus.wf(),
            instr.kind == OpKind::Alr || instr.kind == OpKind::Anc || instr.kind == OpKind::Arr,
        ensures
            Self::applied_with(
                *old(self),
                *final(self),
                instr,
                addr,
                val,
                combo_regs(old(self).regs(), instr.kind, val),
            ),
    {
        self.a = self.a & val;
        let m = self.a;
        proof {
            lemma_byte_bits(m);
            lemma_byte_bits(m >> 1u8);
        }
        match instr.kind {
            OpKind::Alr => {
                self.set_flag_if(flags::C, self.a & 0x01 != 0);
                self.a = self.a >> 1u8;
                self.update_nz(self.a);
            },
            OpKind::Anc => {
                self.update_nz(self.a);
                proof {
                    lemma_n_readback(set_if(old(self).p, flags::Z, m == 0), m >= 0x80);
                }
                self.set_flag_if(flags::C, self.flag_val(flags::N));
            },
            _ => {
                // ARR: rotate right through carry; V = bit 6 ^ bit 5, C = bit 6.
                let carry_in: u8 = if self.flag_val(flags::C) { 0x80 } else { 0 };
                self.set_flag_if(flags::C, self.a & 0x01 != 0);
                self.a = (self.a >> 1u8) | carry_in;
                self.update_nz(self.a);
                let v = ((self.a >> 6u8) ^ (self.a >> 5u8)) & 0x01 != 0;
                self.set_flag_if(flags::V, v);
                self.set_flag_if(flags::C, self.a & 0x40 != 0);
            },
        }
    }


    /// Execute `instr` on the already-read operand value `val`.
    #[verifier::spinoff_prover]
    fn apply(&mut self, instr: Instruction, addr: u16, val: u8)
        requires
            old(self).bus.wf(),
            old(self).cycles <= u64::MAX - 2,
        ensures
            Self::applied(*old(self), *final(self), instr, addr, val),
    {
        match instr.kind {
            OpKind::Lda | OpKind::Ldx | OpKind::Ldy | OpKind::Tax | OpKind::Tay | OpKind::Txa
            | OpKind::Tya | OpKind::Tsx | OpKind::Txs | OpKind::Lax | OpKind::Las | OpKind::Xaa => {
                self.apply_load(instr, addr, val)
            },
            OpKind::Sta | OpKind::Stx | OpKind::Sty | OpKind::Sax => self.apply_store(
                instr,
                addr,
                val,
            ),
            OpKind::Shy | OpKind::Shx | OpKind::Tas | OpKind::Ahx => self.apply_store_unstable(
                instr,
                addr,
                val,
            ),
            OpKind::Pha | OpKind::Php | OpKind::Pla | OpKind::Plp => self.apply_stack(
                instr,
                addr,
                val,
            ),
            OpKind::Adc | OpKind::Sbc => self.apply_add(instr, addr, val),
            OpKind::Cmp | OpKind::Cpx | OpKind::Cpy | OpKind::Axs => self.apply_compare(
                instr,
                addr,
                val,
            ),
            OpKind::And | OpKind::Ora | OpKind::Eor | OpKind::Bit => self.apply_logic(
                instr,
                addr,
                val,
            ),
            OpKind::Inc | OpKind::Dec | OpKind::Inx | OpKind::Iny | OpKind::Dex | OpKind::Dey => {
                self.apply_incdec(instr, addr, val)
            },
            OpKind::Asl | OpKind::Lsr | OpKind::Rol | OpKind::Ror => self.apply_shift(
                instr,
                addr,
                val,
            ),
            OpKind::Bcc | OpKind::Bcs | OpKind::Beq | OpKind::Bmi | OpKind::Bne | OpKind::Bpl
            | OpKind::Bvc | OpKind::Bvs => self.apply_branch(instr, addr, val),
            OpKind::Jmp | OpKind::Jsr | OpKind::Kil => self.apply_jump(instr, addr, val),
            OpKind::Rts | OpKind::Rti => self.apply_return(instr, addr, val),
            OpKind::Brk => self.apply_brk(instr, addr, val),
            OpKind::Clc | OpKind::Cld | OpKind::Cli | OpKind::Clv | OpKind::Sec | OpKind::Sed
            | OpKind::Sei | OpKind::Nop | OpKind::UnopNop => self.apply_flag(instr, addr, val),
            OpKind::Dcp | OpKind::Isc | OpKind::Slo | OpKind::Rla | OpKind::Sre | OpKind::Rra => {
                self.apply_combo_rmw(instr, addr, val)
            },
            OpKind::Alr | OpKind::Anc | OpKind::Arr => self.apply_combo_imm(instr, addr, val),
        }
    }

    /// What executing `ins` at effective address `addr` does: PC, cycle count
    /// and cartridge as the semantics say in any case; when the operand read
    /// does not reach a device, the registers and RAM too, with the operand
    /// value the bus holds.
    pub open spec fn executed(old: Self, new: Self, ins: Instruction, addr: u16) -> bool {
        let v = operand_spec(old.regs(), ins, addr, old.bus);
        &&& new.bus.wf()
        &&& new.bus.io.is_some() == old.bus.io.is_some()
        &&& new.bus.mapper.is_some() == old.bus.mapper.is_some()
        &&& new.pc == pc_after(old.regs(), ins, addr, old.bus)
        &&& new.cycles == cycles_after(old.regs(), ins, addr, old.bus)
        &&& mapper_after(old.bus.mapper, new.bus.mapper, ins, addr, stored_value(old.regs(), ins, addr, v))
        &&& for_some_operand(old.regs(), ins, addr, old.bus, new.regs(), new.bus.ram())
        &&& !(reads_bus(ins) && old.bus.reads_device(addr)) ==> Self::applied(
            old,
            new,
            ins,
            addr,
            operand_spec(old.regs(), ins, addr, old.bus),
        )
    }

    /// Execute one decoded instruction whose operand resolved to `addr`.
    #[verifier::spinoff_prover]
    fn execute(&mut self, instr: Instruction, addr: u16)
        requires
            old(self).bus.wf(),
            old(self).cycles <= u64::MAX - 2,
        ensures
            Self::executed(*old(self), *final(self), instr, addr),
    {
        let val = self.fetch_operand(instr, addr);
        let ghost mid = *self;
        self.apply(instr, addr, val);
        proof {
            lemma_regs_after_bus(old(self).regs(), instr, addr, val, old(self).bus, mid.bus);
            lemma_flow_independent(old(self).regs(), instr, addr, val, old(self).bus);
            assert(self.regs() == regs_after(old(self).regs(), instr, addr, val, old(self).bus));
        }
    }


    // ── Execute one instruction ───────────────────────────────────────────────
    /// One instruction step: fetch the opcode at PC, resolve its operand,
    /// charge its cycles (plus one when indexing crossed a page, where the
    /// opcode has that penalty), then execute it. When the opcode and its
    /// operand bytes come from RAM or the cartridge, the cycle count is as the
    /// semantics say. When a JMP pointer's target does too, so are the PC and
    /// the cartridge (which changes only by a store at $6000 or above), and
    /// the registers and RAM are the semantics' for some operand value; when
    /// the operand value is not read from a device either, that value is the
    /// one the bus holds, and the device is unchanged but by a store to it.
    /// In any case the bus stays well formed and the cycle count grows. (Opaque: the
    /// laws in `laws` take it as their premise; `reveal` it to reason about
    /// one step directly.)
    #[verifier::opaque]
    pub open spec fn stepped(old: Self, new: Self) -> bool {
        let b = old.bus;
        let ins = opcode(b.peek_spec(old.pc));
        let pc1 = inc16(old.pc);
        let res = resolve_spec(b, ins.mode, pc1, old.x, old.y);
        let e = res.0;
        let extra: int = if ins.page_cross_penalty && res.1 { 1 } else { 0 };
        let r1 = Regs { pc: res.2, cycles: (old.cycles + ins.cycles + extra) as u64, ..old.regs() };
        let v = operand_spec(r1, ins, e, b);
        let timed = !b.reads_device(old.pc) && operand_bytes_plain(b, ins.mode, pc1);
        let fetched = !b.reads_device(old.pc) && resolve_plain(b, ins.mode, pc1);
        let plain = fetched && !(reads_bus(ins) && b.reads_device(e));
        &&& new.bus.wf()
        &&& new.bus.io.is_some() == old.bus.io.is_some()
        &&& new.bus.mapper.is_some() == old.bus.mapper.is_some()
        &&& old.cycles < new.cycles <= old.cycles + 11
        &&& timed ==> new.cycles == cycles_after(r1, ins, e, b)
        &&& fetched ==> new.pc == pc_after(r1, ins, e, b)
        &&& fetched ==> mapper_after(b.mapper, new.bus.mapper, ins, e, stored_value(r1, ins, e, v))
        &&& fetched ==> for_some_operand(r1, ins, e, b, new.regs(), new.bus.ram())
        &&& plain ==> new.regs() == regs_after(r1, ins, e, v, b) && new.bus.ram() == ram_after(
            r1,
            ins,
            e,
            v,
            b.ram(),
        )
        &&& plain && !(writes_operand(ins) && is_device_write_addr(e)) ==> new.bus.io == b.io
    }

    /// Execute one instruction and return the trace line captured before it.
    pub fn step(&mut self) -> (r: String)
        requires
            old(self).bus.wf(),
            old(self).cycles <= STEP_CYCLE_LIMIT,
        ensures
            r@ == log_line(*old(self)),
            Self::stepped(*old(self), *final(self)),
            final(self).bus.wf(),
            old(self).cycles < final(self).cycles <= old(self).cycles + 11,
    {
        let log_line = self.log_state();
        self.step_instruction();
        proof {
            reveal(Cpu::stepped);
        }
        log_line
    }

    /// `states` is a run gated by `callback`: each state but the last was at
    /// most `STEP_CYCLE_LIMIT`, got the answer `true`, and stepped to the next.
    pub open spec fn gated_run<F: Fn(&Self) -> bool>(callback: F, states: Seq<Self>) -> bool {
        forall|i: int|
            0 <= i < states.len() - 1 ==> {
                &&& (#[trigger] states[i]).cycles <= STEP_CYCLE_LIMIT
                &&& call_ensures(callback, (&states[i],), true)
                &&& Self::stepped(states[i], states[i + 1])
            }
    }

    /// Run instructions, asking `callback` before each one whether to go on
    /// (it returns `false` to stop): callback, step, callback, step, ...,
    /// callback. The run also ends, before stepping, once the cycle count is
    /// past `STEP_CYCLE_LIMIT`, where the trace line `step` takes would
    /// overflow. The callback sees the CPU through a shared reference and
    /// cannot change it, so that its contract can speak of the state it was
    /// shown.
    pub fn run_with_callback<F: Fn(&Self) -> bool>(&mut self, callback: F)
        requires
            old(self).bus.wf(),
            forall|c: &Self| #[trigger] call_requires(callback, (c,)),
        ensures
            final(self).bus.wf(),
            exists|states: Seq<Self>|
                #![trigger Self::gated_run(callback, states)]
                states.len() >= 1 && states[0] == *old(self) && states.last() == *final(self)
                    && Self::gated_run(callback, states),
            final(self).cycles > STEP_CYCLE_LIMIT || call_ensures(callback, (&*final(self),), false),
    {
        let ghost mut trace: Seq<Self> = seq![*self];
        loop
            invariant
                self.bus.wf(),
                self.cycles >= old(self).cycles,
                trace.len() >= 1,
                trace[0] == *old(self),
                trace.last() == *self,
                Self::gated_run(callback, trace),
                forall|c: &Self| #[trigger] call_requires(callback, (c,)),
            decreases u64::MAX - self.cycles,
        {
            if self.cycles > STEP_CYCLE_LIMIT {
                return;
            }
            let go = callback(self);
            if !go {
                return;
            }
            let ghost before = *self;
            self.step();
            proof {
                let next = trace.push(*self);
                assert forall|i: int| 0 <= i < next.len() - 1 implies {
                    &&& (#[trigger] next[i]).cycles <= STEP_CYCLE_LIMIT
                    &&& call_ensures(callback, (&next[i],), true)
                    &&& Self::stepped(next[i], next[i + 1])
                } by {
                    if i < trace.len() - 1 {
                        assert(next[i] == trace[i]);
                        assert(next[i + 1] == trace[i + 1]);
                    } else {
                        assert(next[i] == before);
                    }
                }
                trace = next;
            }
        }
    }

    /// The work of `step` after the trace line is taken.
    #[verifier::spinoff_prover]
    #[verifier::rlimit(50)]
    fn step_instruction(&mut self)
        requires
            old(self).bus.wf(),
            old(self).cycles <= STEP_CYCLE_LIMIT,
        ensures
            Self::stepped(*old(self), *final(self)),
    {
        let ghost s0 = *self;
        let opcode_byte = self.bus_read(self.pc);
        self.pc = self.pc.wrapping_add(1);

        let instr = decode(opcode_byte);
        let ghost s1 = *self;
        let (addr, page_crossed) = self.resolve_addr(instr.mode);
        let ghost s2 = *self;

        let extra = if instr.page_cross_penalty && page_crossed {
            1u64
        } else {
            0
        };
        let cost = instr.cycles as u64 + extra;

        // Add the cycle cost before executing, so that devices reached
        // during execution see the updated count.
        self.cycles = self.cycles + cost;
        let ghost s3 = *self;

        self.execute(instr, addr);
        proof {
            Self::lemma_step_parts(s0, s1, s2, s3, *self, instr, opcode_byte, (addr, page_crossed));
        }
    }

    /// Chains the contracts of the parts of one instruction step.
    #[verifier::spinoff_prover]
    #[verifier::rlimit(100)]
    proof fn lemma_step_parts(
        s0: Self,
        s1: Self,
        s2: Self,
        s3: Self,
        s4: Self,
        instr: Instruction,
        opcode_byte: u8,
        r: (u16, bool),
    )
        requires
            s0.bus.wf(),
            s1.bus.wf(),
            s1.bus.ram() == s0.bus.ram(),
            s1.bus.mapper == s0.bus.mapper,
            s1.bus.io.is_some() == s0.bus.io.is_some(),
            s1.regs() == (Regs { pc: inc16(s0.pc), ..s0.regs() }),
            !s0.bus.reads_device(s0.pc) ==> opcode_byte == s0.bus.peek_spec(s0.pc) && s1.bus
                == s0.bus,
            instr == opcode(opcode_byte),
            Self::resolved(s1, s2, instr.mode, r),
            s3 == (Self {
                cycles: (s2.cycles + instr.cycles + (if instr.page_cross_penalty && r.1 {
                    1int
                } else {
                    0int
                })) as u64,
                ..s2
            }),
            Self::executed(s3, s4, instr, r.0),
            s0.cycles <= STEP_CYCLE_LIMIT,
        ensures
            Self::stepped(s0, s4),
    {
        reveal(Cpu::stepped);
        lemma_opcode_cycles(opcode_byte);
        assert(s2.cycles == s0.cycles);
        assert(s3.cycles >= s0.cycles + 2);
        lemma_cycles_monotone(s3.regs(), instr, r.0, s3.bus);
        let b = s0.bus;
        let pc1 = inc16(s0.pc);
        let res = resolve_spec(b, instr.mode, pc1, s0.x, s0.y);
        if !b.reads_device(s0.pc) {
            assert(s1.bus == b);
            let extra: int = if instr.page_cross_penalty && res.1 {
                1
            } else {
                0
            };
            let r1 = Regs { pc: res.2, cycles: (s0.cycles + instr.cycles + extra) as u64, ..s0.regs() };
            if resolve_plain(b, instr.mode, pc1) {
                assert(s2.bus == b);
                assert(s3.bus == b);
                assert(r == (res.0, res.1));
                assert(s3.regs() == r1);
                assert(for_some_operand(r1, instr, res.0, b, s4.regs(), s4.bus.ram()));
            } else if operand_bytes_plain(b, instr.mode, pc1) {
                assert(instr.mode == AddrMode::Indirect);
                assert(!res.1);
                assert(s3.regs() == r1);
                lemma_relative_is_branch(opcode_byte);
                lemma_cycles_not_branch(s3.regs(), instr, r.0, s3.bus);
                lemma_cycles_not_branch(r1, instr, res.0, b);
            }
        }
    }
    // ── Interrupt vectors ───────────────────────────────────────────────────
    /// Non-maskable interrupt: push PC and status (B clear, U set), disable
    /// IRQs and jump through the vector at $FFFA.
    pub fn nmi(&mut self)
        requires
            old(self).bus.wf(),
            old(self).cycles <= u64::MAX - 7,
        ensures
            final(self).bus.wf(),
            final(self).regs() == (Regs {
                pc: word(old(self).bus.peek_spec(0xFFFA), old(self).bus.peek_spec(0xFFFB)),
                sp: sp_down(old(self).sp, 3),
                p: old(self).p | flags::I,
                cycles: (old(self).cycles + 7) as u64,
                ..old(self).regs()
            }),
            final(self).bus.ram() == old(self).bus.ram().update(
                stack_index(old(self).sp),
                hi(old(self).pc),
            ).update(stack_index(sp_down(old(self).sp, 1)), lo(old(self).pc)).update(
                stack_index(sp_down(old(self).sp, 2)),
                (old(self).p & !flags::B) | flags::U,
            ),
            same_devices(final(self).bus, old(self).bus),
    {
        self.push16(self.pc);
        self.push8((self.p & !flags::B) | flags::U);
        self.flag_set(flags::I);
        proof {
            old(self).bus.lemma_peek_depends(self.bus, 0xFFFA);
            old(self).bus.lemma_peek_depends(self.bus, 0xFFFB);
        }
        self.pc = self.read_vector(0xFFFA);
        self.cycles = self.cycles + 7;
    }

    /// Reset: load PC from $FFFC, drop SP by three, disable IRQs.
    pub fn reset(&mut self)
        requires
            old(self).bus.wf(),
            old(self).cycles <= u64::MAX - 7,
        ensures
            final(self).bus.wf(),
            final(self).regs() == (Regs {
                pc: word(old(self).bus.peek_spec(0xFFFC), old(self).bus.peek_spec(0xFFFD)),
                sp: sp_down(old(self).sp, 3),
                p: old(self).p | flags::I,
                cycles: (old(self).cycles + 7) as u64,
                ..old(self).regs()
            }),
            final(self).bus.ram() == old(self).bus.ram(),
            same_devices(final(self).bus, old(self).bus),
    {
        self.pc = self.read_vector(0xFFFC);
        self.sp = self.sp.wrapping_sub(3);
        self.flag_set(flags::I);
        self.cycles = self.cycles + 7;
    }
}

} // verus!
