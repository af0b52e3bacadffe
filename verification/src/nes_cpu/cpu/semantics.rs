//! The instruction semantics of the 2A03 CPU core, as spec functions over
//! the register file and the bus.
use vstd::prelude::*;

use crate::nes_cpu::bus::{Bus, BusIo};
use crate::nes_cpu::cpu::flags;
use crate::nes_cpu::mapper::Mapper;
use crate::nes_cpu::opcodes::{AddrMode, Instruction, OpKind};

verus! {

/// The CPU register file.
#[derive(Clone, Copy)]
pub struct Regs {
    pub a: u8,
    pub x: u8,
    pub y: u8,
    pub pc: u16,
    pub sp: u8,
    pub p: u8,
    pub cycles: u64,
}

/// `p` with `flag` set when `cond` holds and cleared otherwise.
pub open spec fn set_if(p: u8, flag: u8, cond: bool) -> u8 {
    if cond {
        p | flag
    } else {
        p & !flag
    }
}

/// Z and N updated from `v`: Z when it is zero, N when its bit 7 is set.
pub open spec fn with_nz(p: u8, v: u8) -> u8 {
    set_if(set_if(p, flags::Z, v == 0), flags::N, v >= 0x80)
}

pub open spec fn carry(p: u8) -> bool {
    p & flags::C != 0
}

pub open spec fn bit(b: bool) -> int {
    if b {
        1
    } else {
        0
    }
}

/// `a + v + carry`, unbounded.
pub open spec fn adc_sum(a: u8, v: u8, c: bool) -> int {
    a + v + bit(c)
}

/// The 8-bit result of an add with carry.
pub open spec fn adc_result(a: u8, v: u8, c: bool) -> u8 {
    (adc_sum(a, v, c) % 256) as u8
}

/// Signed overflow: both operands share a sign that the result does not.
pub open spec fn adc_overflow(a: u8, v: u8, c: bool) -> bool {
    (a < 0x80) == (v < 0x80) && (adc_result(a, v, c) < 0x80) != (a < 0x80)
}

/// The value of a byte read as a two's-complement number.
pub open spec fn signed(b: u8) -> int {
    if b < 0x80 {
        b as int
    } else {
        b - 256
    }
}

/// The status register after an add with carry of `v` to `a`.
pub open spec fn adc_flags(p: u8, a: u8, v: u8) -> u8 {
    let c = carry(p);
    with_nz(
        set_if(set_if(p, flags::C, adc_sum(a, v, c) > 0xFF), flags::V, adc_overflow(a, v, c)),
        adc_result(a, v, c),
    )
}

/// Registers after an add with carry of `v` to the accumulator.
pub open spec fn adc_regs(r: Regs, v: u8) -> Regs {
    Regs { a: adc_result(r.a, v, carry(r.p)), p: adc_flags(r.p, r.a, v), ..r }
}

/// Subtract with borrow is an add with carry of the complemented operand.
pub open spec fn sbc_regs(r: Regs, v: u8) -> Regs {
    adc_regs(r, (255 - v) as u8)
}

/// Flags after comparing `reg` with `v`: C when `reg >= v`, N/Z from `reg - v`.
pub open spec fn compare_flags(p: u8, reg: u8, v: u8) -> u8 {
    with_nz(set_if(p, flags::C, reg >= v), ((reg - v + 256) % 256) as u8)
}

pub open spec fn inc8(v: u8) -> u8 {
    ((v + 1) % 256) as u8
}

pub open spec fn dec8(v: u8) -> u8 {
    ((v + 255) % 256) as u8
}

pub open spec fn inc16(v: u16) -> u16 {
    ((v + 1) % 65536) as u16
}

pub open spec fn dec16(v: u16) -> u16 {
    ((v + 65535) % 65536) as u16
}

/// Shift left: bit 7 goes out.
pub open spec fn shl1(v: u8) -> u8 {
    ((v * 2) % 256) as u8
}

/// Shift right: bit 0 goes out.
pub open spec fn shr1(v: u8) -> u8 {
    (v / 2) as u8
}

/// Rotate left through carry.
pub open spec fn rol(v: u8, c: bool) -> u8 {
    ((v * 2 + bit(c)) % 256) as u8
}

/// Rotate right through carry.
pub open spec fn ror(v: u8, c: bool) -> u8 {
    (v / 2 + 128 * bit(c)) as u8
}

/// Result of a shift or rotate of `v` under the given kind.
pub open spec fn shift_result(kind: OpKind, v: u8, c: bool) -> u8 {
    match kind {
        OpKind::Asl => shl1(v),
        OpKind::Lsr => shr1(v),
        OpKind::Rol => rol(v, c),
        _ => ror(v, c),
    }
}

/// Carry out of a shift or rotate: bit 7 going left, bit 0 going right.
pub open spec fn shift_carry(kind: OpKind, v: u8) -> bool {
    match kind {
        OpKind::Asl | OpKind::Rol => v >= 0x80,
        _ => v % 2 == 1,
    }
}

/// RAM index of stack slot `sp` (page 1).
pub open spec fn stack_index(sp: u8) -> int {
    0x100 + sp
}

pub open spec fn sp_up(sp: u8, n: int) -> u8 {
    ((sp + n) % 256) as u8
}

pub open spec fn sp_down(sp: u8, n: int) -> u8 {
    ((sp - n + 256) % 256) as u8
}

/// The byte `k` slots above the stack pointer.
pub open spec fn stack_at(ram: Seq<u8>, sp: u8, k: int) -> u8 {
    ram[stack_index(sp_up(sp, k))]
}

/// RAM after a bus write of `val` to `addr` (only $0000-$1FFF reaches RAM).
pub open spec fn ram_write(ram: Seq<u8>, addr: u16, val: u8) -> Seq<u8> {
    if addr <= 0x1FFF {
        ram.update((addr & 0x07FF) as int, val)
    } else {
        ram
    }
}

/// Status byte as pushed by PHP/BRK: B and U set.
pub open spec fn pushed_status(p: u8) -> u8 {
    p | flags::B | flags::U
}

/// Status byte as restored by PLP/RTI: B cleared, U set.
pub open spec fn pulled_status(v: u8) -> u8 {
    (v & !flags::B) | flags::U
}

pub open spec fn lo(v: u16) -> u8 {
    (v % 256) as u8
}

pub open spec fn hi(v: u16) -> u8 {
    (v / 256) as u8
}

pub open spec fn word(lo: u8, hi: u8) -> u16 {
    (hi * 256 + lo) as u16
}

/// The relative branch target: `pc` plus the signed low byte of `offset`.
pub open spec fn branch_target(pc: u16, offset: u16) -> u16 {
    ((pc + signed(lo(offset)) + 65536) % 65536) as u16
}

/// Registers after a conditional branch: when taken, PC moves and the branch
/// costs one extra cycle, two if it lands on another page.
pub open spec fn branch_regs(r: Regs, cond: bool, offset: u16) -> Regs {
    if cond {
        let t = branch_target(r.pc, offset);
        Regs {
            pc: t,
            cycles: (r.cycles + if r.pc / 256 != t / 256 { 2int } else { 1int }) as u64,
            ..r
        }
    } else {
        r
    }
}

/// The high byte of `addr` plus one (used by the unstable SH* stores).
pub open spec fn hi_plus_one(addr: u16) -> u8 {
    inc8(hi(addr))
}

/// The value an instruction reads from its operand, before executing.
pub open spec fn operand_spec<M: Mapper, I: BusIo>(
    r: Regs,
    ins: Instruction,
    addr: u16,
    bus: Bus<M, I>,
) -> u8 {
    if reads_operand(ins) {
        if ins.mode == AddrMode::Accumulator && uses_operand_mode(ins.kind) {
            r.a
        } else {
            bus.peek_spec(addr)
        }
    } else {
        0
    }
}

/// Kinds whose operand follows the addressing mode (the accumulator in
/// accumulator mode).
pub open spec fn uses_operand_mode(k: OpKind) -> bool {
    match k {
        OpKind::Lda | OpKind::Ldx | OpKind::Ldy | OpKind::Adc | OpKind::Sbc | OpKind::And
        | OpKind::Ora | OpKind::Eor | OpKind::Asl | OpKind::Lsr | OpKind::Rol | OpKind::Ror
        | OpKind::Cmp | OpKind::Cpx | OpKind::Cpy => true,
        _ => false,
    }
}

/// Kinds that always read memory at the effective address.
pub open spec fn reads_memory(k: OpKind) -> bool {
    match k {
        OpKind::Inc | OpKind::Dec | OpKind::Bit | OpKind::Lax | OpKind::Dcp | OpKind::Isc
        | OpKind::Slo | OpKind::Rla | OpKind::Sre | OpKind::Rra | OpKind::Alr | OpKind::Anc
        | OpKind::Arr | OpKind::Axs | OpKind::Xaa | OpKind::Las => true,
        _ => false,
    }
}

/// The instruction reads an operand (from memory, or the accumulator).
pub open spec fn reads_operand(ins: Instruction) -> bool {
    ||| uses_operand_mode(ins.kind)
    ||| reads_memory(ins.kind)
    ||| ((ins.kind == OpKind::Nop || ins.kind == OpKind::UnopNop) && ins.mode
        != AddrMode::Implied && ins.mode != AddrMode::Accumulator)
}

/// The operand read goes over the bus (not from the accumulator).
pub open spec fn reads_bus(ins: Instruction) -> bool {
    reads_operand(ins) && !(ins.mode == AddrMode::Accumulator && uses_operand_mode(ins.kind))
}

/// The instruction writes its result back to the effective address.
pub open spec fn writes_operand(ins: Instruction) -> bool {
    match ins.kind {
        OpKind::Sta | OpKind::Stx | OpKind::Sty | OpKind::Inc | OpKind::Dec | OpKind::Sax
        | OpKind::Dcp | OpKind::Isc | OpKind::Slo | OpKind::Rla | OpKind::Sre | OpKind::Rra
        | OpKind::Shy | OpKind::Shx | OpKind::Tas | OpKind::Ahx => true,
        OpKind::Asl | OpKind::Lsr | OpKind::Rol | OpKind::Ror => ins.mode != AddrMode::Accumulator,
        _ => false,
    }
}

/// The byte written to the effective address (meaningful when `writes_operand`).
pub open spec fn stored_value(r: Regs, ins: Instruction, addr: u16, v: u8) -> u8 {
    match ins.kind {
        OpKind::Sta => r.a,
        OpKind::Stx => r.x,
        OpKind::Sty => r.y,
        OpKind::Inc | OpKind::Isc => inc8(v),
        OpKind::Dec | OpKind::Dcp => dec8(v),
        OpKind::Asl | OpKind::Lsr | OpKind::Rol | OpKind::Ror => shift_result(
            ins.kind,
            v,
            carry(r.p),
        ),
        OpKind::Sax => r.a & r.x,
        OpKind::Slo => shl1(v),
        OpKind::Rla => rol(v, carry(r.p)),
        OpKind::Sre => shr1(v),
        OpKind::Rra => ror(v, carry(r.p)),
        OpKind::Shy => r.y & hi_plus_one(addr),
        OpKind::Shx => r.x & hi_plus_one(addr),
        OpKind::Tas => (r.a & r.x) & hi_plus_one(addr),
        _ => r.a & r.x & hi_plus_one(addr),
    }
}

/// RAM after the instruction's writes: the stack pushes, then the operand store.
pub open spec fn ram_after(r: Regs, ins: Instruction, addr: u16, v: u8, ram: Seq<u8>) -> Seq<u8> {
    match ins.kind {
        OpKind::Pha => ram.update(stack_index(r.sp), r.a),
        OpKind::Php => ram.update(stack_index(r.sp), pushed_status(r.p)),
        OpKind::Jsr => {
            let ret = dec16(r.pc);
            ram.update(stack_index(r.sp), hi(ret)).update(stack_index(sp_down(r.sp, 1)), lo(ret))
        },
        OpKind::Brk => {
            let ret = inc16(r.pc);
            ram.update(stack_index(r.sp), hi(ret)).update(
                stack_index(sp_down(r.sp, 1)),
                lo(ret),
            ).update(stack_index(sp_down(r.sp, 2)), pushed_status(r.p))
        },
        _ => if writes_operand(ins) {
            ram_write(ram, addr, stored_value(r, ins, addr, v))
        } else {
            ram
        },
    }
}

/// Loads, transfers and the unofficial LAX/LAS/XAA.
pub open spec fn load_regs(r: Regs, k: OpKind, v: u8) -> Regs {
    match k {
        OpKind::Lda => Regs { a: v, p: with_nz(r.p, v), ..r },
        OpKind::Ldx => Regs { x: v, p: with_nz(r.p, v), ..r },
        OpKind::Ldy => Regs { y: v, p: with_nz(r.p, v), ..r },
        OpKind::Tax => Regs { x: r.a, p: with_nz(r.p, r.a), ..r },
        OpKind::Tay => Regs { y: r.a, p: with_nz(r.p, r.a), ..r },
        OpKind::Txa => Regs { a: r.x, p: with_nz(r.p, r.x), ..r },
        OpKind::Tya => Regs { a: r.y, p: with_nz(r.p, r.y), ..r },
        OpKind::Tsx => Regs { x: r.sp, p: with_nz(r.p, r.sp), ..r },
        OpKind::Txs => Regs { sp: r.x, ..r },
        OpKind::Lax => Regs { a: v, x: v, p: with_nz(r.p, v), ..r },
        OpKind::Las => {
            let m = v & r.sp;
            Regs { a: m, x: m, sp: m, p: with_nz(r.p, m), ..r }
        },
        _ => Regs { a: r.x & v, p: with_nz(r.p, r.x & v), ..r },
    }
}

/// Stack pushes and pulls of A and P.
pub open spec fn stack_regs(r: Regs, k: OpKind, ram: Seq<u8>) -> Regs {
    match k {
        OpKind::Pha | OpKind::Php => Regs { sp: sp_down(r.sp, 1), ..r },
        OpKind::Pla => {
            let val = stack_at(ram, r.sp, 1);
            Regs { sp: sp_up(r.sp, 1), a: val, p: with_nz(r.p, val), ..r }
        },
        _ => Regs { sp: sp_up(r.sp, 1), p: pulled_status(stack_at(ram, r.sp, 1)), ..r },
    }
}

/// Compares, and AXS.
pub open spec fn compare_regs(r: Regs, k: OpKind, v: u8) -> Regs {
    match k {
        OpKind::Cmp => Regs { p: compare_flags(r.p, r.a, v), ..r },
        OpKind::Cpx => Regs { p: compare_flags(r.p, r.x, v), ..r },
        OpKind::Cpy => Regs { p: compare_flags(r.p, r.y, v), ..r },
        _ => {
            let ax = r.a & r.x;
            let nx = ((ax - v + 256) % 256) as u8;
            Regs { x: nx, p: with_nz(set_if(r.p, flags::C, ax >= v), nx), ..r }
        },
    }
}

/// AND, ORA, EOR and BIT.
pub open spec fn logic_regs(r: Regs, k: OpKind, v: u8) -> Regs {
    match k {
        OpKind::And => Regs { a: r.a & v, p: with_nz(r.p, r.a & v), ..r },
        OpKind::Ora => Regs { a: r.a | v, p: with_nz(r.p, r.a | v), ..r },
        OpKind::Eor => Regs { a: r.a ^ v, p: with_nz(r.p, r.a ^ v), ..r },
        _ => Regs {
            p: set_if(
                set_if(set_if(r.p, flags::Z, r.a & v == 0), flags::V, v & 0x40 != 0),
                flags::N,
                v >= 0x80,
            ),
            ..r
        },
    }
}

/// Increments and decrements.
pub open spec fn incdec_regs(r: Regs, k: OpKind, v: u8) -> Regs {
    match k {
        OpKind::Inc => Regs { p: with_nz(r.p, inc8(v)), ..r },
        OpKind::Dec => Regs { p: with_nz(r.p, dec8(v)), ..r },
        OpKind::Inx => Regs { x: inc8(r.x), p: with_nz(r.p, inc8(r.x)), ..r },
        OpKind::Iny => Regs { y: inc8(r.y), p: with_nz(r.p, inc8(r.y)), ..r },
        OpKind::Dex => Regs { x: dec8(r.x), p: with_nz(r.p, dec8(r.x)), ..r },
        _ => Regs { y: dec8(r.y), p: with_nz(r.p, dec8(r.y)), ..r },
    }
}

/// Shifts and rotates: the result goes to A in accumulator mode.
pub open spec fn shift_regs(r: Regs, k: OpKind, mode: AddrMode, v: u8) -> Regs {
    let res = shift_result(k, v, carry(r.p));
    let p = with_nz(set_if(r.p, flags::C, shift_carry(k, v)), res);
    if mode == AddrMode::Accumulator {
        Regs { a: res, p: p, ..r }
    } else {
        Regs { p: p, ..r }
    }
}

/// The condition a branch kind tests.
pub open spec fn branch_cond(k: OpKind, p: u8) -> bool {
    match k {
        OpKind::Bcc => p & flags::C == 0,
        OpKind::Bcs => p & flags::C != 0,
        OpKind::Beq => p & flags::Z != 0,
        OpKind::Bmi => p & flags::N != 0,
        OpKind::Bne => p & flags::Z == 0,
        OpKind::Bpl => p & flags::N == 0,
        OpKind::Bvc => p & flags::V == 0,
        _ => p & flags::V != 0,
    }
}

/// Jumps, calls, returns, BRK and the halt.
pub open spec fn jump_regs<M: Mapper, I: BusIo>(r: Regs, k: OpKind, addr: u16, bus: Bus<M, I>) -> Regs {
    let ram = bus.ram();
    match k {
        OpKind::Jmp => Regs { pc: addr, ..r },
        OpKind::Jsr => Regs { pc: addr, sp: sp_down(r.sp, 2), ..r },
        OpKind::Rts => Regs {
            pc: inc16(word(stack_at(ram, r.sp, 1), stack_at(ram, r.sp, 2))),
            sp: sp_up(r.sp, 2),
            ..r
        },
        OpKind::Rti => Regs {
            p: pulled_status(stack_at(ram, r.sp, 1)),
            pc: word(stack_at(ram, r.sp, 2), stack_at(ram, r.sp, 3)),
            sp: sp_up(r.sp, 3),
            ..r
        },
        OpKind::Brk => Regs {
            pc: word(bus.peek_spec(0xFFFE), bus.peek_spec(0xFFFF)),
            sp: sp_down(r.sp, 3),
            p: r.p | flags::I,
            ..r
        },
        _ => Regs { pc: dec16(r.pc), ..r },
    }
}

/// Flag sets and clears, and the NOPs.
pub open spec fn flag_regs(r: Regs, k: OpKind) -> Regs {
    match k {
        OpKind::Clc => Regs { p: r.p & !flags::C, ..r },
        OpKind::Cld => Regs { p: r.p & !flags::D, ..r },
        OpKind::Cli => Regs { p: r.p & !flags::I, ..r },
        OpKind::Clv => Regs { p: r.p & !flags::V, ..r },
        OpKind::Sec => Regs { p: r.p | flags::C, ..r },
        OpKind::Sed => Regs { p: r.p | flags::D, ..r },
        OpKind::Sei => Regs { p: r.p | flags::I, ..r },
        _ => r,
    }
}

/// The unofficial read-modify-write and immediate combinations.
pub open spec fn combo_regs(r: Regs, k: OpKind, v: u8) -> Regs {
    let c = carry(r.p);
    match k {
        OpKind::Dcp => Regs { p: compare_flags(r.p, r.a, dec8(v)), ..r },
        OpKind::Isc => sbc_regs(r, inc8(v)),
        OpKind::Slo => {
            let a = r.a | shl1(v);
            Regs { a: a, p: with_nz(set_if(r.p, flags::C, v >= 0x80), a), ..r }
        },
        OpKind::Rla => {
            let a = r.a & rol(v, c);
            Regs { a: a, p: with_nz(set_if(r.p, flags::C, v >= 0x80), a), ..r }
        },
        OpKind::Sre => {
            let a = r.a ^ shr1(v);
            Regs { a: a, p: with_nz(set_if(r.p, flags::C, v % 2 == 1), a), ..r }
        },
        OpKind::Rra => adc_regs(Regs { p: set_if(r.p, flags::C, v % 2 == 1), ..r }, ror(v, c)),
        OpKind::Alr => {
            let m = r.a & v;
            Regs { a: shr1(m), p: with_nz(set_if(r.p, flags::C, m % 2 == 1), shr1(m)), ..r }
        },
        OpKind::Anc => {
            let m = r.a & v;
            Regs { a: m, p: set_if(with_nz(r.p, m), flags::C, m >= 0x80), ..r }
        },
        _ => {
            let m = ror(r.a & v, c);
            let p1 = with_nz(set_if(r.p, flags::C, (r.a & v) % 2 == 1), m);
            let p2 = set_if(p1, flags::V, ((m >> 6u8) ^ (m >> 5u8)) & 1 != 0);
            Regs { a: m, p: set_if(p2, flags::C, m & 0x40 != 0), ..r }
        },
    }
}

/// Registers after executing `ins` with effective address `addr` and operand
/// value `v`, with stack pulls and vectors taken from `bus`.
pub open spec fn regs_after<M: Mapper, I: BusIo>(
    r: Regs,
    ins: Instruction,
    addr: u16,
    v: u8,
    bus: Bus<M, I>,
) -> Regs {
    let k = ins.kind;
    match k {
        OpKind::Lda | OpKind::Ldx | OpKind::Ldy | OpKind::Tax | OpKind::Tay | OpKind::Txa
        | OpKind::Tya | OpKind::Tsx | OpKind::Txs | OpKind::Lax | OpKind::Las | OpKind::Xaa => {
            load_regs(r, k, v)
        },
        OpKind::Sta | OpKind::Stx | OpKind::Sty | OpKind::Sax | OpKind::Shy | OpKind::Shx
        | OpKind::Ahx => r,
        OpKind::Tas => Regs { sp: r.a & r.x, ..r },
        OpKind::Pha | OpKind::Php | OpKind::Pla | OpKind::Plp => stack_regs(r, k, bus.ram()),
        OpKind::Adc => adc_regs(r, v),
        OpKind::Sbc => sbc_regs(r, v),
        OpKind::Cmp | OpKind::Cpx | OpKind::Cpy | OpKind::Axs => compare_regs(r, k, v),
        OpKind::And | OpKind::Ora | OpKind::Eor | OpKind::Bit => logic_regs(r, k, v),
        OpKind::Inc | OpKind::Dec | OpKind::Inx | OpKind::Iny | OpKind::Dex | OpKind::Dey => {
            incdec_regs(r, k, v)
        },
        OpKind::Asl | OpKind::Lsr | OpKind::Rol | OpKind::Ror => shift_regs(r, k, ins.mode, v),
        OpKind::Bcc | OpKind::Bcs | OpKind::Beq | OpKind::Bmi | OpKind::Bne | OpKind::Bpl
        | OpKind::Bvc | OpKind::Bvs => branch_regs(r, branch_cond(k, r.p), addr),
        OpKind::Jmp | OpKind::Jsr | OpKind::Rts | OpKind::Rti | OpKind::Brk | OpKind::Kil => {
            jump_regs(r, k, addr, bus)
        },
        OpKind::Clc | OpKind::Cld | OpKind::Cli | OpKind::Clv | OpKind::Sec | OpKind::Sed
        | OpKind::Sei | OpKind::Nop | OpKind::UnopNop => flag_regs(r, k),
        _ => combo_regs(r, k, v),
    }
}

/// The PC after executing `ins`; it does not depend on the operand value.
pub open spec fn pc_after<M: Mapper, I: BusIo>(r: Regs, ins: Instruction, addr: u16, bus: Bus<M, I>) -> u16 {
    regs_after(r, ins, addr, 0, bus).pc
}

/// The cycle count after executing `ins` (only a taken branch adds to it);
/// it does not depend on the operand value.
pub open spec fn cycles_after<M: Mapper, I: BusIo>(
    r: Regs,
    ins: Instruction,
    addr: u16,
    bus: Bus<M, I>,
) -> u64 {
    regs_after(r, ins, addr, 0, bus).cycles
}

/// Control flow and timing are the same whatever operand value was read.
#[verifier::spinoff_prover]
#[verifier::rlimit(80)]
pub proof fn lemma_flow_independent<M: Mapper, I: BusIo>(
    r: Regs,
    ins: Instruction,
    addr: u16,
    v: u8,
    bus: Bus<M, I>,
)
    ensures
        regs_after(r, ins, addr, v, bus).pc == pc_after(r, ins, addr, bus),
        regs_after(r, ins, addr, v, bus).cycles == cycles_after(r, ins, addr, bus),
{
    let k = ins.kind;
    match k {
        OpKind::Lda | OpKind::Ldx | OpKind::Ldy | OpKind::Tax | OpKind::Tay | OpKind::Txa
        | OpKind::Tya | OpKind::Tsx | OpKind::Txs | OpKind::Lax | OpKind::Las | OpKind::Xaa => {
            assert(load_regs(r, k, v).pc == r.pc && load_regs(r, k, v).cycles == r.cycles);
            assert(load_regs(r, k, 0).pc == r.pc && load_regs(r, k, 0).cycles == r.cycles);
        },
        OpKind::Adc | OpKind::Sbc => {
            assert(adc_regs(r, v).pc == r.pc && adc_regs(r, v).cycles == r.cycles);
            assert(sbc_regs(r, v).pc == r.pc && sbc_regs(r, v).cycles == r.cycles);
            assert(adc_regs(r, 0).pc == r.pc && adc_regs(r, 0).cycles == r.cycles);
            assert(sbc_regs(r, 0).pc == r.pc && sbc_regs(r, 0).cycles == r.cycles);
        },
        OpKind::Cmp | OpKind::Cpx | OpKind::Cpy | OpKind::Axs => {
            assert(compare_regs(r, k, v).pc == r.pc && compare_regs(r, k, v).cycles == r.cycles);
            assert(compare_regs(r, k, 0).pc == r.pc && compare_regs(r, k, 0).cycles == r.cycles);
        },
        OpKind::And | OpKind::Ora | OpKind::Eor | OpKind::Bit => {
            assert(logic_regs(r, k, v).pc == r.pc && logic_regs(r, k, v).cycles == r.cycles);
            assert(logic_regs(r, k, 0).pc == r.pc && logic_regs(r, k, 0).cycles == r.cycles);
        },
        OpKind::Inc | OpKind::Dec | OpKind::Inx | OpKind::Iny | OpKind::Dex | OpKind::Dey => {
            assert(incdec_regs(r, k, v).pc == r.pc && incdec_regs(r, k, v).cycles == r.cycles);
            assert(incdec_regs(r, k, 0).pc == r.pc && incdec_regs(r, k, 0).cycles == r.cycles);
        },
        OpKind::Asl | OpKind::Lsr | OpKind::Rol | OpKind::Ror => {
            assert(shift_regs(r, k, ins.mode, v).pc == r.pc && shift_regs(r, k, ins.mode, v).cycles == r.cycles);
            assert(shift_regs(r, k, ins.mode, 0).pc == r.pc && shift_regs(r, k, ins.mode, 0).cycles == r.cycles);
        },
        OpKind::Dcp | OpKind::Isc | OpKind::Slo | OpKind::Rla | OpKind::Sre | OpKind::Rra
        | OpKind::Alr | OpKind::Anc | OpKind::Arr => {
            assert(combo_regs(r, k, v).pc == r.pc && combo_regs(r, k, v).cycles == r.cycles);
            assert(combo_regs(r, k, 0).pc == r.pc && combo_regs(r, k, 0).cycles == r.cycles);
        },
        _ => {},
    }
}

/// An instruction never takes cycles back: only a taken branch adds to them.
pub proof fn lemma_cycles_monotone<M: Mapper, I: BusIo>(
    r: Regs,
    ins: Instruction,
    addr: u16,
    bus: Bus<M, I>,
)
    requires
        r.cycles <= u64::MAX - 2,
    ensures
        r.cycles <= cycles_after(r, ins, addr, bus) <= r.cycles + 2,
{
    lemma_flow_independent(r, ins, addr, 0, bus);
}

/// Only a taken branch adds cycles: every other instruction leaves the count
/// as its fetch left it.
#[verifier::spinoff_prover]
#[verifier::rlimit(80)]
pub proof fn lemma_cycles_not_branch<M: Mapper, I: BusIo>(
    r: Regs,
    ins: Instruction,
    addr: u16,
    bus: Bus<M, I>,
)
    requires
        !(ins.kind == OpKind::Bcc || ins.kind == OpKind::Bcs || ins.kind == OpKind::Beq || ins.kind
            == OpKind::Bmi || ins.kind == OpKind::Bne || ins.kind == OpKind::Bpl || ins.kind
            == OpKind::Bvc || ins.kind == OpKind::Bvs),
    ensures
        cycles_after(r, ins, addr, bus) == r.cycles,
{
    let k = ins.kind;
    match k {
        OpKind::Lda | OpKind::Ldx | OpKind::Ldy | OpKind::Tax | OpKind::Tay | OpKind::Txa
        | OpKind::Tya | OpKind::Tsx | OpKind::Txs | OpKind::Lax | OpKind::Las | OpKind::Xaa => {
            assert(load_regs(r, k, 0).cycles == r.cycles);
        },
        OpKind::Adc | OpKind::Sbc => {
            assert(adc_regs(r, 0).cycles == r.cycles);
            assert(sbc_regs(r, 0).cycles == r.cycles);
        },
        OpKind::Cmp | OpKind::Cpx | OpKind::Cpy | OpKind::Axs => {
            assert(compare_regs(r, k, 0).cycles == r.cycles);
        },
        OpKind::And | OpKind::Ora | OpKind::Eor | OpKind::Bit => {
            assert(logic_regs(r, k, 0).cycles == r.cycles);
        },
        OpKind::Inc | OpKind::Dec | OpKind::Inx | OpKind::Iny | OpKind::Dex | OpKind::Dey => {
            assert(incdec_regs(r, k, 0).cycles == r.cycles);
        },
        OpKind::Asl | OpKind::Lsr | OpKind::Rol | OpKind::Ror => {
            assert(shift_regs(r, k, ins.mode, 0).cycles == r.cycles);
        },
        OpKind::Dcp | OpKind::Isc | OpKind::Slo | OpKind::Rla | OpKind::Sre | OpKind::Rra
        | OpKind::Alr | OpKind::Anc | OpKind::Arr => {
            assert(combo_regs(r, k, 0).cycles == r.cycles);
        },
        _ => {},
    }
}

/// The registers after an instruction depend on the bus only through its RAM
/// and its cartridge.
pub proof fn lemma_regs_after_bus<M: Mapper, I: BusIo>(
    r: Regs,
    ins: Instruction,
    addr: u16,
    v: u8,
    b1: Bus<M, I>,
    b2: Bus<M, I>,
)
    requires
        b1.ram() == b2.ram(),
        b1.mapper == b2.mapper,
    ensures
        regs_after(r, ins, addr, v, b1) == regs_after(r, ins, addr, v, b2),
{
    b1.lemma_peek_depends(b2, 0xFFFE);
    b1.lemma_peek_depends(b2, 0xFFFF);
}

/// The little-endian word stored at `pc`, `pc + 1`.
pub open spec fn operand_word<M: Mapper, I: BusIo>(bus: Bus<M, I>, pc: u16) -> u16 {
    word(bus.peek_spec(pc), bus.peek_spec(inc16(pc)))
}

/// The little-endian word stored in the zero page at `zp`, wrapping within it.
pub open spec fn zp_word<M: Mapper, I: BusIo>(bus: Bus<M, I>, zp: u8) -> u16 {
    word(bus.peek_spec(zp as u16), bus.peek_spec(((zp + 1) % 256) as u16))
}

/// JMP (ptr)'s target, with the high byte taken from the same page.
pub open spec fn indirect_target<M: Mapper, I: BusIo>(bus: Bus<M, I>, ptr: u16) -> u16 {
    word(bus.peek_spec(ptr), bus.peek_spec(indirect_hi_addr(ptr)))
}

pub open spec fn pc_plus2(pc: u16) -> u16 {
    ((pc + 2) % 65536) as u16
}

/// `base + i` (wrapping), whether that crossed a page, and the next PC.
pub open spec fn indexed(base: u16, i: u8, npc: u16) -> (u16, bool, u16) {
    let e = ((base + i) % 65536) as u16;
    (e, base / 256 != e / 256, npc)
}

/// Effective address, page-crossing flag and the PC after the operand
/// bytes, for an instruction whose operand bytes start at `pc`.
pub open spec fn resolve_spec<M: Mapper, I: BusIo>(
    bus: Bus<M, I>,
    mode: AddrMode,
    pc: u16,
    x: u8,
    y: u8,
) -> (u16, bool, u16) {
    match mode {
        AddrMode::Implied | AddrMode::Accumulator => (0, false, pc),
        AddrMode::Immediate => (pc, false, inc16(pc)),
        AddrMode::ZeroPage | AddrMode::Relative => (bus.peek_spec(pc) as u16, false, inc16(pc)),
        AddrMode::ZeroPageX => (((bus.peek_spec(pc) + x) % 256) as u16, false, inc16(pc)),
        AddrMode::ZeroPageY => (((bus.peek_spec(pc) + y) % 256) as u16, false, inc16(pc)),
        AddrMode::Absolute => (operand_word(bus, pc), false, pc_plus2(pc)),
        AddrMode::AbsoluteX => indexed(operand_word(bus, pc), x, pc_plus2(pc)),
        AddrMode::AbsoluteY => indexed(operand_word(bus, pc), y, pc_plus2(pc)),
        AddrMode::Indirect => (indirect_target(bus, operand_word(bus, pc)), false, pc_plus2(pc)),
        AddrMode::IndirectX => (
            zp_word(bus, ((bus.peek_spec(pc) + x) % 256) as u8),
            false,
            inc16(pc),
        ),
        AddrMode::IndirectY => indexed(zp_word(bus, bus.peek_spec(pc)), y, inc16(pc)),
    }
}

/// Where JMP (ptr) takes its high byte: the next byte within the same page.
pub open spec fn indirect_hi_addr(ptr: u16) -> u16 {
    (ptr / 256 * 256 + (ptr + 1) % 256) as u16
}

/// None of the operand bytes that follow the opcode is a device register (a
/// JMP pointer's target may be).
pub open spec fn operand_bytes_plain<M: Mapper, I: BusIo>(bus: Bus<M, I>, mode: AddrMode, pc: u16) -> bool {
    match mode {
        AddrMode::Implied | AddrMode::Accumulator | AddrMode::Immediate => true,
        AddrMode::ZeroPage | AddrMode::ZeroPageX | AddrMode::ZeroPageY | AddrMode::IndirectX
        | AddrMode::IndirectY | AddrMode::Relative => !bus.reads_device(pc),
        AddrMode::Absolute | AddrMode::AbsoluteX | AddrMode::AbsoluteY | AddrMode::Indirect => {
            !bus.reads_device(pc) && !bus.reads_device(inc16(pc))
        },
    }
}

/// None of the operand bytes, nor a JMP pointer target, is a device register.
pub open spec fn resolve_plain<M: Mapper, I: BusIo>(bus: Bus<M, I>, mode: AddrMode, pc: u16) -> bool {
    let abs = operand_word(bus, pc);
    match mode {
        AddrMode::Implied | AddrMode::Accumulator | AddrMode::Immediate => true,
        AddrMode::ZeroPage | AddrMode::ZeroPageX | AddrMode::ZeroPageY | AddrMode::IndirectX
        | AddrMode::IndirectY | AddrMode::Relative => !bus.reads_device(pc),
        AddrMode::Absolute | AddrMode::AbsoluteX | AddrMode::AbsoluteY => !bus.reads_device(pc)
            && !bus.reads_device(inc16(pc)),
        AddrMode::Indirect => !bus.reads_device(pc) && !bus.reads_device(inc16(pc))
            && !bus.reads_device(abs) && !bus.reads_device(indirect_hi_addr(abs)),
    }
}

} // verus!
