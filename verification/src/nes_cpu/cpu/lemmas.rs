//! Bit-level facts that connect the CPU's byte operations to the arithmetic
//! in its semantics.
use vstd::prelude::*;

verus! {

pub proof fn lemma_byte_bits(v: u8)
    by (bit_vector)
    ensures
        (v & 0x80 != 0) == (v >= 0x80),
        (v & 0x01 != 0) == (v % 2 == 1),
        (v << 1u8) == ((v * 2) % 256) as u8,
        (v >> 1u8) == (v / 2) as u8,
        ((v << 1u8) | 1u8) == ((v * 2 + 1) % 256) as u8,
        ((v >> 1u8) | 0x80u8) == (v / 2 + 128) as u8,
        !v == (255 - v) as u8,
        v.wrapping_add(1) == ((v + 1) % 256) as u8,
        v.wrapping_sub(1) == ((v + 255) % 256) as u8,
        (v | 0u8) == v,
        (v & 0x40 != 0) == ((v / 64) % 2 == 1),
{
}

/// After setting or clearing N, reading N back gives the condition.
pub proof fn lemma_n_readback(p: u8, c: bool)
    ensures
        ((if c { p | 0x80u8 } else { p & !0x80u8 }) & 0x80u8 != 0) == c,
{
    assert(((p | 0x80u8) & 0x80u8 != 0)) by (bit_vector);
    assert(((p & !0x80u8) & 0x80u8 == 0)) by (bit_vector);
}

pub proof fn lemma_stack_addr(sp: u8)
    ensures
        (0x0100u16 | (sp as u16)) <= 0x1FFF,
        ((0x0100u16 | (sp as u16)) & 0x07FF) == 0x100 + sp,
{
    assert((0x0100u16 | (sp as u16)) <= 0x1FFF) by (bit_vector);
    assert(((0x0100u16 | (sp as u16)) & 0x07FF) == 0x100 + sp) by (bit_vector);
}

pub proof fn lemma_word(lo: u8, hi: u8)
    ensures
        (((hi as u16) << 8u16) | (lo as u16)) == hi * 256 + lo,
{
    assert((((hi as u16) << 8u16) | (lo as u16)) == hi * 256 + lo) by (bit_vector);
}

pub proof fn lemma_split_word(v: u16)
    ensures
        (v >> 8u16) as u8 == v / 256,
        v as u8 == v % 256,
        (v & 0xFF00) == (v / 256) * 256,
{
    assert((v >> 8u16) as u8 == v / 256) by (bit_vector);
    assert(v as u8 == v % 256) by (bit_vector);
    assert((v & 0xFF00) == (v / 256) * 256) by (bit_vector);
}

pub proof fn lemma_indirect_hi(ptr: u16)
    ensures
        ((ptr & 0xFF00) | (ptr.wrapping_add(1) & 0x00FF)) == ptr / 256 * 256 + (ptr + 1) % 256,
{
    assert(((ptr & 0xFF00) | (ptr.wrapping_add(1) & 0x00FF)) == ptr / 256 * 256 + (ptr + 1) % 256)
        by (bit_vector);
}

pub proof fn lemma_zp(b: u8, x: u8)
    ensures
        ((b.wrapping_add(x) as u16).wrapping_add(1) & 0x00FF) == ((b + x) % 256 + 1) % 256,
        ((b.wrapping_add(x) as u16) & 0x00FF) == (b + x) % 256,
        (((b as u16).wrapping_add(1)) & 0x00FF) == (b + 1) % 256,
        ((b as u16) & 0x00FF) == b,
{
    assert(((b.wrapping_add(x) as u16).wrapping_add(1) & 0x00FF) == ((b + x) % 256 + 1) % 256)
        by (bit_vector);
    assert(((b.wrapping_add(x) as u16) & 0x00FF) == (b + x) % 256) by (bit_vector);
    assert((((b as u16).wrapping_add(1)) & 0x00FF) == (b + 1) % 256) by (bit_vector);
    assert(((b as u16) & 0x00FF) == b) by (bit_vector);
}

pub proof fn lemma_branch(pc: u16, offset: u16)
    ensures
        ((pc as i32 + (offset as i8) as i32) as u16) == ((pc + (if (offset % 256) < 128 {
            (offset % 256) as int
        } else {
            (offset % 256) - 256
        }) + 65536) % 65536) as u16,
{
    assert(((pc as i32 + (offset as i8) as i32) as u16) == ((pc + (if (offset % 256) < 128 {
        (offset % 256) as int
    } else {
        (offset % 256) - 256
    }) + 65536) % 65536) as u16) by (bit_vector);
}

pub proof fn lemma_relative_target(pc: u16, b: u8)
    ensures
        ((pc as i32 + 2 + (b as i8) as i32) as u16) == ((pc + 2 + (if b < 128 {
            b as int
        } else {
            b - 256
        }) + 65536) % 65536) as u16,
{
    assert(((pc as i32 + 2 + (b as i8) as i32) as u16) == ((pc + 2 + (if b < 128 {
        b as int
    } else {
        b - 256
    }) + 65536) % 65536) as u16) by (bit_vector);
}

pub proof fn lemma_adc(a: u8, v: u8, c: u16)
    requires
        c <= 1,
    ensures
        ({
            let sum = a as u16 + v as u16 + c;
            let r = sum as u8;
            &&& r == ((a + v + c) % 256) as u8
            &&& ((!(a ^ v) & (a ^ r)) & 0x80 != 0) == ((a < 0x80) == (v < 0x80) && (r < 0x80) != (a
                < 0x80))
        }),
{
    assert({
        let sum = a as u16 + v as u16 + c;
        let r = sum as u8;
        &&& r == ((a + v + c) % 256) as u8
        &&& ((!(a ^ v) & (a ^ r)) & 0x80 != 0) == ((a < 0x80) == (v < 0x80) && (r < 0x80) != (a
            < 0x80))
    }) by (bit_vector)
        requires
            c <= 1,
    ;
}

} // verus!
