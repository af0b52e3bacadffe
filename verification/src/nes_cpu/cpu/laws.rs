//! Properties of the instruction semantics that hold for every input.
use vstd::prelude::*;

use crate::nes_cpu::bus::{Bus, BusIo};
use crate::nes_cpu::cpu::{flags, Cpu, STEP_CYCLE_LIMIT};
use crate::nes_cpu::cpu::semantics::{
    adc_flags, adc_overflow, adc_regs, adc_result, adc_sum, bit, carry, compare_flags, dec16,
    cycles_after, hi, inc16, lo, operand_bytes_plain, resolve_spec, pulled_status, sp_down, sp_up, stack_at, stack_index, word, pushed_status, ram_after, regs_after, sbc_regs, set_if, signed,
    with_nz, Regs,
};
use crate::nes_cpu::mapper::Mapper;
use crate::nes_cpu::opcodes::{lemma_relative_is_branch, opcode, AddrMode, Instruction, OpKind};

verus! {

/// Setting or clearing one flag, then Z and N, leaves the carry bit as the
/// first step put it.
proof fn lemma_carry_survives(p: u8, flag: u8, cond: bool, v: u8)
    requires
        flag == flags::C || flag == flags::V,
    ensures
        carry(set_if(p, flag, cond)) == if flag == flags::C {
            cond
        } else {
            carry(p)
        },
        carry(with_nz(set_if(p, flag, cond), v)) == if flag == flags::C {
            cond
        } else {
            carry(p)
        },
        (with_nz(set_if(p, flag, cond), v) & flags::Z != 0) == (v == 0),
        (with_nz(set_if(p, flag, cond), v) & flags::N != 0) == (v >= 0x80),
{
    let q = set_if(p, flag, cond);
    let z = v == 0;
    let n = v >= 0x80;
    assert(((if n { (if z { q | 2u8 } else { q & !2u8 }) | 0x80u8 } else { (if z { q | 2u8 } else {
        q & !2u8 }) & !0x80u8 }) & 1u8 != 0) == (q & 1u8 != 0)) by (bit_vector);
    assert(((if n { (if z { q | 2u8 } else { q & !2u8 }) | 0x80u8 } else { (if z { q | 2u8 } else {
        q & !2u8 }) & !0x80u8 }) & 2u8 != 0) == z) by (bit_vector);
    assert(((if n { (if z { q | 2u8 } else { q & !2u8 }) | 0x80u8 } else { (if z { q | 2u8 } else {
        q & !2u8 }) & !0x80u8 }) & 0x80u8 != 0) == n) by (bit_vector);
    assert(((if cond { p | 1u8 } else { p & !1u8 }) & 1u8 != 0) == cond) by (bit_vector);
    assert(((if cond { p | 0x40u8 } else { p & !0x40u8 }) & 1u8) == (p & 1u8)) by (bit_vector);
}

/// Add with carry: the accumulator gets `a + v + C` modulo 256, C is set
/// exactly when that sum exceeds 255, and V exactly when the signed sum
/// leaves -128..=127; otherwise the signed result is the signed sum.
pub proof fn lemma_adc_arithmetic(a: u8, v: u8, p: u8)
    ensures
        adc_result(a, v, carry(p)) == (a + v + bit(carry(p))) % 256,
        carry(adc_flags(p, a, v)) == (a + v + bit(carry(p)) > 255),
        adc_overflow(a, v, carry(p)) == !(-128 <= signed(a) + signed(v) + bit(carry(p)) <= 127),
        !adc_overflow(a, v, carry(p)) ==> signed(adc_result(a, v, carry(p))) == signed(a)
            + signed(v) + bit(carry(p)),
        (adc_flags(p, a, v) & flags::Z != 0) == (adc_result(a, v, carry(p)) == 0),
        (adc_flags(p, a, v) & flags::V != 0) == adc_overflow(a, v, carry(p)),
{
    let c = carry(p);
    let q = set_if(p, flags::C, adc_sum(a, v, c) > 0xFF);
    let ov = adc_overflow(a, v, c);
    let res = adc_result(a, v, c);
    let z = res == 0;
    let n = res >= 0x80;
    assert(((if n { (if z { (if ov { q | 0x40u8 } else { q & !0x40u8 }) | 2u8 } else { (if ov {
        q | 0x40u8 } else { q & !0x40u8 }) & !2u8 }) | 0x80u8 } else { (if z { (if ov { q | 0x40u8 }
        else { q & !0x40u8 }) | 2u8 } else { (if ov { q | 0x40u8 } else { q & !0x40u8 }) & !2u8 })
        & !0x80u8 }) & 0x40u8 != 0) == ov) by (bit_vector);
    lemma_carry_survives(p, flags::C, adc_sum(a, v, c) > 0xFF, adc_result(a, v, c));
    lemma_carry_survives(
        set_if(p, flags::C, adc_sum(a, v, c) > 0xFF),
        flags::V,
        adc_overflow(a, v, c),
        adc_result(a, v, c),
    );
}

/// Subtract with borrow: the accumulator gets `a - v - (1 - C)` modulo 256,
/// and C afterwards says that no borrow was needed.
pub proof fn lemma_sbc_arithmetic(r: Regs, v: u8)
    ensures
        sbc_regs(r, v).a == (r.a - v - (1 - bit(carry(r.p))) + 512) % 256,
        carry(sbc_regs(r, v).p) == (r.a >= v + 1 - bit(carry(r.p))),
        sbc_regs(r, v) == (Regs { a: sbc_regs(r, v).a, p: sbc_regs(r, v).p, ..r }),
{
    lemma_adc_arithmetic(r.a, (255 - v) as u8, r.p);
}

/// Compare: C is set exactly when the register is at least the operand, Z
/// exactly when they are equal, N from bit 7 of their difference.
pub proof fn lemma_compare(p: u8, reg: u8, v: u8)
    ensures
        carry(compare_flags(p, reg, v)) == (reg >= v),
        (compare_flags(p, reg, v) & flags::Z != 0) == (reg == v),
        (compare_flags(p, reg, v) & flags::N != 0) == ((reg - v + 256) % 256 >= 0x80),
{
    lemma_carry_survives(p, flags::C, reg >= v, ((reg - v + 256) % 256) as u8);
}

/// PHA followed by PLA gives back the accumulator and the stack pointer.
pub proof fn lemma_pha_pla<M: Mapper, I: BusIo>(
    r: Regs,
    bus: Bus<M, I>,
    after_push: Bus<M, I>,
    addr: u16,
    v: u8,
    w: u8,
)
    requires
        bus.ram().len() == 2048,
        after_push.ram() == ram_after(r, opcode(0x48), addr, v, bus.ram()),
    ensures
        regs_after(regs_after(r, opcode(0x48), addr, v, bus), opcode(0x68), addr, w, after_push).a
            == r.a,
        regs_after(regs_after(r, opcode(0x48), addr, v, bus), opcode(0x68), addr, w, after_push).sp
            == r.sp,
{
}

/// PHP followed by PLP gives back the status register with B clear and U set.
pub proof fn lemma_php_plp<M: Mapper, I: BusIo>(
    r: Regs,
    bus: Bus<M, I>,
    after_push: Bus<M, I>,
    addr: u16,
    v: u8,
    w: u8,
)
    requires
        bus.ram().len() == 2048,
        after_push.ram() == ram_after(r, opcode(0x08), addr, v, bus.ram()),
    ensures
        regs_after(regs_after(r, opcode(0x08), addr, v, bus), opcode(0x28), addr, w, after_push).p
            == (r.p & !flags::B) | flags::U,
        regs_after(regs_after(r, opcode(0x08), addr, v, bus), opcode(0x28), addr, w, after_push).sp
            == r.sp,
{
    let p = r.p;
    assert(pulled_status(pushed_status(p)) == (p & !flags::B) | flags::U) by {
        assert((((p | 0x10u8 | 0x20u8) & !0x10u8) | 0x20u8) == (p & !0x10u8) | 0x20u8)
            by (bit_vector);
    }
}

/// JSR followed by RTS returns to the instruction after the JSR (whose
/// operand bytes end just before `r.pc`) with the stack pointer restored.
pub proof fn lemma_jsr_rts<M: Mapper, I: BusIo>(
    r: Regs,
    bus: Bus<M, I>,
    after_call: Bus<M, I>,
    target: u16,
    v: u8,
    addr: u16,
    w: u8,
)
    requires
        bus.ram().len() == 2048,
        after_call.ram() == ram_after(r, opcode(0x20), target, v, bus.ram()),
    ensures
        regs_after(regs_after(r, opcode(0x20), target, v, bus), opcode(0x60), addr, w, after_call).pc
            == r.pc,
        regs_after(regs_after(r, opcode(0x20), target, v, bus), opcode(0x60), addr, w, after_call).sp
            == r.sp,
        regs_after(r, opcode(0x20), target, v, bus).pc == target,
{
    let ins = opcode(0x20);
    let back = opcode(0x60);
    lemma_call_opcodes();
    let ret = dec16(r.pc);
    let r1 = regs_after(r, ins, target, v, bus);
    let ram1 = after_call.ram();
    lemma_stack_pair(r.sp);
    lemma_word_split(ret);
    lemma_wrap16(r.pc);
    assert(stack_at(ram1, r1.sp, 1) == lo(ret));
    assert(stack_at(ram1, r1.sp, 2) == hi(ret));
}

proof fn lemma_call_opcodes()
    ensures
        opcode(0x20).kind == OpKind::Jsr,
        opcode(0x60).kind == OpKind::Rts,
{
}

proof fn lemma_stack_pair(sp: u8)
    ensures
        sp_up(sp_down(sp, 2), 1) == sp_down(sp, 1),
        sp_up(sp_down(sp, 2), 2) == sp,
        sp_down(sp, 1) != sp,
{
}

proof fn lemma_word_split(v: u16)
    ensures
        word(lo(v), hi(v)) == v,
{
    assert(((v / 256) as u8) * 256 + ((v % 256) as u8) == v) by (nonlinear_arith);
}

proof fn lemma_wrap16(v: u16)
    ensures
        inc16(dec16(v)) == v,
{
}

/// PHP then PLA, run from the cartridge: the accumulator receives the status
/// byte as PHP pushed it (B and U set), with N and Z from that byte; the
/// stack pointer is back where it was; 7 cycles pass.
#[verifier::spinoff_prover]
#[verifier::rlimit(100)]
pub proof fn lemma_php_pla_steps<M: Mapper, I: BusIo>(s0: Cpu<M, I>, s1: Cpu<M, I>, s2: Cpu<M, I>)
    requires
        s0.bus.wf(),
        s0.cycles <= STEP_CYCLE_LIMIT,
        0x6000 <= s0.pc <= 0xFFFD,
        s0.bus.peek_spec(s0.pc) == 0x08,
        s0.bus.peek_spec((s0.pc + 1) as u16) == 0x68,
        Cpu::stepped(s0, s1),
        Cpu::stepped(s1, s2),
    ensures
        s2.a == pushed_status(s0.p),
        s2.p == with_nz(s0.p, pushed_status(s0.p)),
        s2.sp == s0.sp,
        s2.x == s0.x,
        s2.y == s0.y,
        s2.pc == s0.pc + 2,
        s2.cycles == s0.cycles + 7,
{
    reveal(Cpu::stepped);
    s0.bus.lemma_peek_depends(s1.bus, (s0.pc + 1) as u16);
    lemma_stack_pair(s0.sp);
}

/// LDA #x then ADC #y, run from the cartridge: the accumulator holds
/// `x + y + C` modulo 256, C says whether that sum exceeded 255, V whether the
/// signed sum left -128..=127, Z whether the result is zero; 4 cycles pass.
#[verifier::spinoff_prover]
#[verifier::rlimit(100)]
pub proof fn lemma_lda_adc_steps<M: Mapper, I: BusIo>(
    s0: Cpu<M, I>,
    s1: Cpu<M, I>,
    s2: Cpu<M, I>,
    x: u8,
    y: u8,
)
    requires
        s0.bus.wf(),
        s0.cycles <= STEP_CYCLE_LIMIT,
        0x6000 <= s0.pc <= 0xFFFB,
        s0.bus.peek_spec(s0.pc) == 0xA9,
        s0.bus.peek_spec((s0.pc + 1) as u16) == x,
        s0.bus.peek_spec((s0.pc + 2) as u16) == 0x69,
        s0.bus.peek_spec((s0.pc + 3) as u16) == y,
        Cpu::stepped(s0, s1),
        Cpu::stepped(s1, s2),
    ensures
        s2.a == (x + y + bit(carry(s0.p))) % 256,
        carry(s2.p) == (x + y + bit(carry(s0.p)) > 255),
        (s2.p & flags::V != 0) == !(-128 <= signed(x) + signed(y) + bit(carry(s0.p)) <= 127),
        (s2.p & flags::Z != 0) == (s2.a == 0),
        s2.x == s0.x,
        s2.y == s0.y,
        s2.sp == s0.sp,
        s2.pc == s0.pc + 4,
        s2.cycles == s0.cycles + 4,
{
    reveal(Cpu::stepped);
    s0.bus.lemma_peek_depends(s1.bus, (s0.pc + 2) as u16);
    s0.bus.lemma_peek_depends(s1.bus, (s0.pc + 3) as u16);
    let p0 = s0.p;
    let p1 = with_nz(p0, x);
    assert(carry(p1) == carry(p0)) by {
        assert(((if x >= 0x80 { (if x == 0 { p0 | 2u8 } else { p0 & !2u8 }) | 0x80u8 } else {
            (if x == 0 { p0 | 2u8 } else { p0 & !2u8 }) & !0x80u8 }) & 1u8) == (p0 & 1u8))
            by (bit_vector);
    }
    lemma_adc_arithmetic(x, y, p1);
    assert(s2.a == adc_result(x, y, carry(p1)));
}

/// One JSR step from the cartridge.
#[verifier::spinoff_prover]
#[verifier::rlimit(100)]
proof fn lemma_jsr_step<M: Mapper, I: BusIo>(s0: Cpu<M, I>, s1: Cpu<M, I>, target: u16)
    requires
        s0.bus.wf(),
        s0.cycles <= u64::MAX / 2,
        0x6000 <= s0.pc <= 0xFFFC,
        s0.bus.peek_spec(s0.pc) == 0x20,
        s0.bus.peek_spec((s0.pc + 1) as u16) == lo(target),
        s0.bus.peek_spec((s0.pc + 2) as u16) == hi(target),
        Cpu::stepped(s0, s1),
    ensures
        s1.bus.wf(),
        s1.regs() == (Regs {
            pc: target,
            sp: sp_down(s0.sp, 2),
            cycles: (s0.cycles + 6) as u64,
            ..s0.regs()
        }),
        s1.bus.ram() == s0.bus.ram().update(stack_index(s0.sp), hi(dec16((s0.pc + 3) as u16))).update(
            stack_index(sp_down(s0.sp, 1)),
            lo(dec16((s0.pc + 3) as u16)),
        ),
        s1.bus.mapper == s0.bus.mapper,
{
    reveal(Cpu::stepped);
    lemma_word_split(target);
}

/// One NOP step from the cartridge.
#[verifier::spinoff_prover]
#[verifier::rlimit(100)]
proof fn lemma_nop_step<M: Mapper, I: BusIo>(s0: Cpu<M, I>, s1: Cpu<M, I>)
    requires
        s0.bus.wf(),
        s0.cycles <= u64::MAX / 2,
        0x6000 <= s0.pc <= 0xFFFE,
        s0.bus.peek_spec(s0.pc) == 0xEA,
        Cpu::stepped(s0, s1),
    ensures
        s1.bus.wf(),
        s1.regs() == (Regs { pc: (s0.pc + 1) as u16, cycles: (s0.cycles + 2) as u64, ..s0.regs() }),
        s1.bus.ram() == s0.bus.ram(),
        s1.bus.mapper == s0.bus.mapper,
{
    reveal(Cpu::stepped);
}

/// One RTS step from the cartridge.
#[verifier::spinoff_prover]
#[verifier::rlimit(100)]
proof fn lemma_rts_step<M: Mapper, I: BusIo>(s0: Cpu<M, I>, s1: Cpu<M, I>)
    requires
        s0.bus.wf(),
        s0.cycles <= u64::MAX / 2,
        0x6000 <= s0.pc,
        s0.bus.peek_spec(s0.pc) == 0x60,
        Cpu::stepped(s0, s1),
    ensures
        s1.bus.wf(),
        s1.regs() == (Regs {
            pc: inc16(word(stack_at(s0.bus.ram(), s0.sp, 1), stack_at(s0.bus.ram(), s0.sp, 2))),
            sp: sp_up(s0.sp, 2),
            cycles: (s0.cycles + 6) as u64,
            ..s0.regs()
        }),
{
    reveal(Cpu::stepped);
}

/// JSR to a subroutine holding NOP then RTS, all in the cartridge: control
/// comes back to the byte after the JSR's operand with the stack pointer
/// restored; 14 cycles pass.
#[verifier::spinoff_prover]
#[verifier::rlimit(100)]
pub proof fn lemma_jsr_nop_rts_steps<M: Mapper, I: BusIo>(
    s0: Cpu<M, I>,
    s1: Cpu<M, I>,
    s2: Cpu<M, I>,
    s3: Cpu<M, I>,
    target: u16,
)
    requires
        s0.bus.wf(),
        s0.cycles <= STEP_CYCLE_LIMIT,
        0x6000 <= s0.pc <= 0xFFFC,
        0x6000 <= target <= 0xFFFE,
        s0.bus.peek_spec(s0.pc) == 0x20,
        s0.bus.peek_spec((s0.pc + 1) as u16) == lo(target),
        s0.bus.peek_spec((s0.pc + 2) as u16) == hi(target),
        s0.bus.peek_spec(target) == 0xEA,
        s0.bus.peek_spec((target + 1) as u16) == 0x60,
        Cpu::stepped(s0, s1),
        Cpu::stepped(s1, s2),
        Cpu::stepped(s2, s3),
    ensures
        s1.pc == target,
        s3.pc == s0.pc + 3,
        s3.sp == s0.sp,
        s3.a == s0.a,
        s3.x == s0.x,
        s3.y == s0.y,
        s3.p == s0.p,
        s3.cycles == s0.cycles + 14,
{
    lemma_jsr_step(s0, s1, target);
    s0.bus.lemma_peek_depends(s1.bus, target);
    s0.bus.lemma_peek_depends(s1.bus, (target + 1) as u16);
    lemma_nop_step(s1, s2);
    s1.bus.lemma_peek_depends(s2.bus, (target + 1) as u16);
    lemma_rts_step(s2, s3);
    let ret = dec16((s0.pc + 3) as u16);
    lemma_stack_pair(s0.sp);
    lemma_word_split(ret);
    lemma_wrap16((s0.pc + 3) as u16);
    assert(stack_at(s2.bus.ram(), s2.sp, 1) == lo(ret));
    assert(stack_at(s2.bus.ram(), s2.sp, 2) == hi(ret));
}

/// One step of an instruction other than a branch, whose opcode and operand
/// bytes come from RAM or the cartridge, charges exactly the opcode's cycle
/// count, plus one when indexing crossed a page on an opcode with that
/// penalty, whatever the operand value or JMP pointer target read (a device
/// register included).
#[verifier::spinoff_prover]
#[verifier::rlimit(100)]
pub proof fn lemma_step_cycles<M: Mapper, I: BusIo>(s0: Cpu<M, I>, s1: Cpu<M, I>)
    requires
        s0.bus.wf(),
        s0.cycles <= STEP_CYCLE_LIMIT,
        !s0.bus.reads_device(s0.pc),
        operand_bytes_plain(s0.bus, opcode(s0.bus.peek_spec(s0.pc)).mode, inc16(s0.pc)),
        opcode(s0.bus.peek_spec(s0.pc)).mode != AddrMode::Relative,
        Cpu::stepped(s0, s1),
    ensures
        s1.cycles == s0.cycles + opcode(s0.bus.peek_spec(s0.pc)).cycles + if opcode(
            s0.bus.peek_spec(s0.pc),
        ).page_cross_penalty && resolve_spec(
            s0.bus,
            opcode(s0.bus.peek_spec(s0.pc)).mode,
            inc16(s0.pc),
            s0.x,
            s0.y,
        ).1 {
            1int
        } else {
            0int
        },
{
    reveal(Cpu::stepped);
    lemma_relative_is_branch(s0.bus.peek_spec(s0.pc));
}

/// BIT, whatever the accumulator and the operand: V becomes bit 6 of the
/// operand and N its bit 7, Z says whether A AND the operand is zero; C, I,
/// D, B and U stay, and so do all the other registers.
pub proof fn lemma_bit_flags<M: Mapper, I: BusIo>(
    r: Regs,
    ins: Instruction,
    addr: u16,
    v: u8,
    bus: Bus<M, I>,
)
    requires
        ins.kind == OpKind::Bit,
    ensures
        (regs_after(r, ins, addr, v, bus).p & 0x40 != 0) == (v & 0x40 != 0),
        (regs_after(r, ins, addr, v, bus).p & 0x80 != 0) == (v & 0x80 != 0),
        (regs_after(r, ins, addr, v, bus).p & 0x02 != 0) == (r.a & v == 0),
        regs_after(r, ins, addr, v, bus).p & 0x3D == r.p & 0x3D,
        regs_after(r, ins, addr, v, bus) == (Regs { p: regs_after(r, ins, addr, v, bus).p, ..r }),
{
    let p0 = r.p;
    let z = r.a & v == 0;
    let vb = v & 0x40 != 0;
    let nb = v >= 0x80;
    let q = regs_after(r, ins, addr, v, bus).p;
    assert(q == (if nb { (if vb { (if z { p0 | 2u8 } else { p0 & !2u8 }) | 0x40u8 } else { (if z {
        p0 | 2u8 } else { p0 & !2u8 }) & !0x40u8 }) | 0x80u8 } else { (if vb { (if z { p0 | 2u8 }
        else { p0 & !2u8 }) | 0x40u8 } else { (if z { p0 | 2u8 } else { p0 & !2u8 }) & !0x40u8 })
        & !0x80u8 }));
    assert(((q & 0x40 != 0) == vb) && ((q & 0x80 != 0) == nb) && ((q & 0x02 != 0) == z) && (q & 0x3D
        == p0 & 0x3D) && ((v & 0x80 != 0) == (v >= 0x80))) by (bit_vector)
        requires
            q == (if nb { (if vb { (if z { p0 | 2u8 } else { p0 & !2u8 }) | 0x40u8 } else { (if z {
                p0 | 2u8 } else { p0 & !2u8 }) & !0x40u8 }) | 0x80u8 } else { (if vb { (if z {
                p0 | 2u8 } else { p0 & !2u8 }) | 0x40u8 } else { (if z { p0 | 2u8 } else { p0
                & !2u8 }) & !0x40u8 }) & !0x80u8 }),
            vb == (v & 0x40 != 0),
            nb == (v >= 0x80),
    ;
}

/// One BIT $zz step from the cartridge: with `v` the zero-page byte the
/// operand names, V becomes bit 6 of `v` and N bit 7, Z says whether A AND
/// `v` is zero, the other flags and A, X, Y and SP stay, PC moves past the
/// two bytes and 3 cycles pass.
#[verifier::spinoff_prover]
#[verifier::rlimit(100)]
pub proof fn lemma_bit_zero_page_step<M: Mapper, I: BusIo>(s0: Cpu<M, I>, s1: Cpu<M, I>)
    requires
        s0.bus.wf(),
        s0.cycles <= STEP_CYCLE_LIMIT,
        0x6000 <= s0.pc <= 0xFFFD,
        s0.bus.peek_spec(s0.pc) == 0x24,
        Cpu::stepped(s0, s1),
    ensures
        ({
            let v = s0.bus.peek_spec(s0.bus.peek_spec((s0.pc + 1) as u16) as u16);
            &&& (s1.p & 0x40 != 0) == (v & 0x40 != 0)
            &&& (s1.p & 0x80 != 0) == (v & 0x80 != 0)
            &&& (s1.p & 0x02 != 0) == (s0.a & v == 0)
            &&& s1.p & 0x3D == s0.p & 0x3D
        }),
        s1.a == s0.a,
        s1.x == s0.x,
        s1.y == s0.y,
        s1.sp == s0.sp,
        s1.pc == s0.pc + 2,
        s1.cycles == s0.cycles + 3,
{
    reveal(Cpu::stepped);
    let b = s0.bus;
    let ins = opcode(0x24);
    let e = b.peek_spec((s0.pc + 1) as u16) as u16;
    let r1 = Regs { pc: (s0.pc + 2) as u16, cycles: (s0.cycles + 3) as u64, ..s0.regs() };
    let v = b.peek_spec(e);
    lemma_bit_flags(r1, ins, e, v, b);
}

/// AND, ORA and EOR, whatever the accumulator and the operand: A becomes
/// A AND / OR / XOR the operand, Z says whether that is zero and N is its
/// bit 7; C, I, D, B, U and V stay, and so do X, Y, SP, PC and the cycles.
pub proof fn lemma_logic_ops<M: Mapper, I: BusIo>(
    r: Regs,
    ins: Instruction,
    addr: u16,
    v: u8,
    bus: Bus<M, I>,
)
    requires
        ins.kind == OpKind::And || ins.kind == OpKind::Ora || ins.kind == OpKind::Eor,
    ensures
        regs_after(r, ins, addr, v, bus).a == if ins.kind == OpKind::And {
            r.a & v
        } else if ins.kind == OpKind::Ora {
            r.a | v
        } else {
            r.a ^ v
        },
        (regs_after(r, ins, addr, v, bus).p & 0x02 != 0) == (regs_after(r, ins, addr, v, bus).a == 0),
        (regs_after(r, ins, addr, v, bus).p & 0x80 != 0) == (regs_after(r, ins, addr, v, bus).a
            & 0x80 != 0),
        regs_after(r, ins, addr, v, bus).p & 0x7D == r.p & 0x7D,
        regs_after(r, ins, addr, v, bus) == (Regs {
            a: regs_after(r, ins, addr, v, bus).a,
            p: regs_after(r, ins, addr, v, bus).p,
            ..r
        }),
{
    let p0 = r.p;
    let a = regs_after(r, ins, addr, v, bus).a;
    let q = regs_after(r, ins, addr, v, bus).p;
    let z = a == 0;
    let n = a >= 0x80;
    assert(q == (if n { (if z { p0 | 2u8 } else { p0 & !2u8 }) | 0x80u8 } else { (if z { p0 | 2u8 }
        else { p0 & !2u8 }) & !0x80u8 }));
    assert(((q & 0x02 != 0) == z) && ((q & 0x80 != 0) == n) && (q & 0x7D == p0 & 0x7D) && ((a
        & 0x80 != 0) == n)) by (bit_vector)
        requires
            q == (if n { (if z { p0 | 2u8 } else { p0 & !2u8 }) | 0x80u8 } else { (if z { p0 | 2u8 }
                else { p0 & !2u8 }) & !0x80u8 }),
            z == (a == 0),
            n == (a >= 0x80),
    ;
}

} // verus!
