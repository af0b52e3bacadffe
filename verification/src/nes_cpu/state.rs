//! Binary save-state helpers.
//!
//! Each component appends its fields to a byte vector in a fixed order and
//! reads them back in the same order. Multi-byte integers are little-endian;
//! there is no framing and no versioning.
use vstd::prelude::*;

use crate::nes_cpu::ines::Mirroring;

verus! {

/// Little-endian bytes of a 16-bit value.
pub open spec fn le16(v: u16) -> Seq<u8> {
    seq![(v & 0xff) as u8, (v >> 8u16) as u8]
}

/// Little-endian bytes of a 32-bit value.
pub open spec fn le32(v: u32) -> Seq<u8> {
    le16((v & 0xffff) as u16) + le16((v >> 16u32) as u16)
}

/// Little-endian bytes of a 64-bit value.
pub open spec fn le64(v: u64) -> Seq<u8> {
    le32((v & 0xffff_ffff) as u32) + le32((v >> 32u64) as u32)
}

/// The 16-bit value whose little-endian bytes start `s`.
pub open spec fn from_le16(s: Seq<u8>) -> u16 {
    (s[0] as u16) | ((s[1] as u16) << 8u16)
}

/// The 32-bit value whose little-endian bytes start `s`.
pub open spec fn from_le32(s: Seq<u8>) -> u32 {
    (from_le16(s) as u32) | ((from_le16(s.subrange(2, s.len() as int)) as u32) << 16u32)
}

/// The 64-bit value whose little-endian bytes start `s`.
pub open spec fn from_le64(s: Seq<u8>) -> u64 {
    (from_le32(s) as u64) | ((from_le32(s.subrange(4, s.len() as int)) as u64) << 32u64)
}

/// The byte that encodes a mirroring mode.
pub open spec fn mirroring_code(m: Mirroring) -> u8 {
    match m {
        Mirroring::Horizontal => 0,
        Mirroring::Vertical => 1,
        Mirroring::FourScreen => 2,
        Mirroring::SingleScreenLower => 3,
        Mirroring::SingleScreenUpper => 4,
    }
}

/// The mirroring mode that a byte decodes to (unknown codes decode to horizontal).
pub open spec fn mirroring_from_code(b: u8) -> Mirroring {
    if b == 1 {
        Mirroring::Vertical
    } else if b == 2 {
        Mirroring::FourScreen
    } else if b == 3 {
        Mirroring::SingleScreenLower
    } else if b == 4 {
        Mirroring::SingleScreenUpper
    } else {
        Mirroring::Horizontal
    }
}

proof fn lemma_u16_split(v: u16)
    ensures
        ((v & 0xff) as u8 as u16) | (((v >> 8u16) as u8 as u16) << 8u16) == v,
{
    assert(((v & 0xff) as u8 as u16) | (((v >> 8u16) as u8 as u16) << 8u16) == v) by (bit_vector);
}

proof fn lemma_u32_split(v: u32)
    ensures
        (((v & 0xffff) as u16) as u32) | ((((v >> 16u32) as u16) as u32) << 16u32) == v,
{
    assert((((v & 0xffff) as u16) as u32) | ((((v >> 16u32) as u16) as u32) << 16u32) == v)
        by (bit_vector);
}

proof fn lemma_u64_split(v: u64)
    ensures
        (((v & 0xffff_ffff) as u32) as u64) | ((((v >> 32u64) as u32) as u64) << 32u64) == v,
{
    assert((((v & 0xffff_ffff) as u32) as u64) | ((((v >> 32u64) as u32) as u64) << 32u64) == v)
        by (bit_vector);
}

/// Decoding the little-endian bytes of a 16-bit value gives the value back,
/// whatever bytes follow them.
pub proof fn lemma_le16_roundtrip(v: u16, rest: Seq<u8>)
    ensures
        from_le16(le16(v) + rest) == v,
{
    lemma_u16_split(v);
}

/// Decoding the little-endian bytes of a 32-bit value gives the value back,
/// whatever bytes follow them.
pub proof fn lemma_le32_roundtrip(v: u32, rest: Seq<u8>)
    ensures
        from_le32(le32(v) + rest) == v,
{
    let lo = (v & 0xffff) as u16;
    let hi = (v >> 16u32) as u16;
    let s = le32(v) + rest;
    lemma_le16_roundtrip(lo, le16(hi) + rest);
    assert(s == le16(lo) + (le16(hi) + rest));
    assert(s.subrange(2, s.len() as int) == le16(hi) + rest);
    lemma_le16_roundtrip(hi, rest);
    lemma_u32_split(v);
}

/// Decoding the little-endian bytes of a 64-bit value gives the value back,
/// whatever bytes follow them.
pub proof fn lemma_le64_roundtrip(v: u64, rest: Seq<u8>)
    ensures
        from_le64(le64(v) + rest) == v,
{
    let lo = (v & 0xffff_ffff) as u32;
    let hi = (v >> 32u64) as u32;
    let s = le64(v) + rest;
    lemma_le32_roundtrip(lo, le32(hi) + rest);
    assert(s == le32(lo) + (le32(hi) + rest));
    assert(s.subrange(4, s.len() as int) == le32(hi) + rest);
    lemma_le32_roundtrip(hi, rest);
    lemma_u64_split(v);
}

/// Every mirroring mode is read back as the mode that was written.
pub proof fn lemma_mirroring_roundtrip(m: Mirroring)
    ensures
        mirroring_from_code(mirroring_code(m)) == m,
{
}

pub fn write_u8(out: &mut Vec<u8>, val: u8)
    ensures
        final(out)@ == old(out)@.push(val),
{
    out.push(val);
}

pub fn write_u16(out: &mut Vec<u8>, val: u16)
    ensures
        final(out)@ == old(out)@ + le16(val),
{
    out.push((val & 0xff) as u8);
    out.push((val >> 8) as u8);
}

pub fn write_u32(out: &mut Vec<u8>, val: u32)
    ensures
        final(out)@ == old(out)@ + le32(val),
{
    write_u16(out, (val & 0xffff) as u16);
    write_u16(out, (val >> 16) as u16);
}

pub fn write_u64(out: &mut Vec<u8>, val: u64)
    ensures
        final(out)@ == old(out)@ + le64(val),
{
    write_u32(out, (val & 0xffff_ffff) as u32);
    write_u32(out, (val >> 32) as u32);
}

pub fn write_i16(out: &mut Vec<u8>, val: i16)
    ensures
        final(out)@ == old(out)@ + le16(val as u16),
{
    write_u16(out, val as u16);
}

pub fn write_bool(out: &mut Vec<u8>, val: bool)
    ensures
        final(out)@ == old(out)@.push(if val { 1u8 } else { 0u8 }),
{
    out.push(if val { 1u8 } else { 0u8 });
}

/// Appends a 32-bit length prefix (the length truncated to 32 bits) and the bytes.
pub fn write_bytes(out: &mut Vec<u8>, data: &[u8])
    ensures
        final(out)@ == old(out)@ + le32(data@.len() as u32) + data@,
{
    write_u32(out, data.len() as u32);
    let ghost mid = out@;
    let mut i: usize = 0;
    while i < data.len()
        invariant
            i <= data@.len(),
            out@ == mid + data@.subrange(0, i as int),
        decreases data@.len() - i,
    {
        out.push(data[i]);
        i = i + 1;
        assert(out@ == mid + data@.subrange(0, i as int));
    }
    assert(data@.subrange(0, data@.len() as int) == data@);
}

pub fn read_u8(data: &mut &[u8]) -> (r: u8)
    requires
        old(data)@.len() >= 1,
    ensures
        r == old(data)@[0],
        final(data)@ == old(data)@.subrange(1, old(data)@.len() as int),
{
    let v = data[0];
    *data = &data[1..data.len()];
    v
}

pub fn read_u16(data: &mut &[u8]) -> (r: u16)
    requires
        old(data)@.len() >= 2,
    ensures
        r == from_le16(old(data)@),
        final(data)@ == old(data)@.subrange(2, old(data)@.len() as int),
{
    let v = (data[0] as u16) | ((data[1] as u16) << 8);
    *data = &data[2..data.len()];
    v
}

pub fn read_u32(data: &mut &[u8]) -> (r: u32)
    requires
        old(data)@.len() >= 4,
    ensures
        r == from_le32(old(data)@),
        final(data)@ == old(data)@.subrange(4, old(data)@.len() as int),
{
    let ghost s = data@;
    let lo = read_u16(data);
    let hi = read_u16(data);
    assert(data@ == s.subrange(4, s.len() as int));
    (lo as u32) | ((hi as u32) << 16)
}

pub fn read_u64(data: &mut &[u8]) -> (r: u64)
    requires
        old(data)@.len() >= 8,
    ensures
        r == from_le64(old(data)@),
        final(data)@ == old(data)@.subrange(8, old(data)@.len() as int),
{
    let ghost s = data@;
    let lo = read_u32(data);
    let hi = read_u32(data);
    assert(data@ == s.subrange(8, s.len() as int));
    (lo as u64) | ((hi as u64) << 32)
}

pub fn read_i16(data: &mut &[u8]) -> (r: i16)
    requires
        old(data)@.len() >= 2,
    ensures
        r == from_le16(old(data)@) as i16,
        final(data)@ == old(data)@.subrange(2, old(data)@.len() as int),
{
    read_u16(data) as i16
}

pub fn read_bool(data: &mut &[u8]) -> (r: bool)
    requires
        old(data)@.len() >= 1,
    ensures
        r == (old(data)@[0] != 0),
        final(data)@ == old(data)@.subrange(1, old(data)@.len() as int),
{
    read_u8(data) != 0
}

/// Reads a 32-bit length prefix and then that many bytes.
pub fn read_bytes(data: &mut &[u8]) -> (r: Vec<u8>)
    requires
        old(data)@.len() >= 4,
        old(data)@.len() >= 4 + from_le32(old(data)@),
    ensures
        ({
            let n = from_le32(old(data)@) as int;
            &&& r@ == old(data)@.subrange(4, 4 + n)
            &&& final(data)@ == old(data)@.subrange(4 + n, old(data)@.len() as int)
        }),
{
    let ghost s = data@;
    let len = read_u32(data) as usize;
    let mut v: Vec<u8> = Vec::new();
    let mut i: usize = 0;
    while i < len
        invariant
            len == from_le32(s),
            data@ == s.subrange(4, s.len() as int),
            data@.len() >= len,
            i <= len,
            v@ == data@.subrange(0, i as int),
        decreases len - i,
    {
        v.push(data[i]);
        i = i + 1;
        assert(v@ == data@.subrange(0, i as int));
    }
    *data = &data[len..data.len()];
    assert(v@ == s.subrange(4, 4 + len as int));
    v
}

pub fn write_mirroring(out: &mut Vec<u8>, m: Mirroring)
    ensures
        final(out)@ == old(out)@.push(mirroring_code(m)),
{
    let code: u8 = match m {
        Mirroring::Horizontal => 0,
        Mirroring::Vertical => 1,
        Mirroring::FourScreen => 2,
        Mirroring::SingleScreenLower => 3,
        Mirroring::SingleScreenUpper => 4,
    };
    write_u8(out, code);
}

pub fn read_mirroring(data: &mut &[u8]) -> (r: Mirroring)
    requires
        old(data)@.len() >= 1,
    ensures
        r == mirroring_from_code(old(data)@[0]),
        final(data)@ == old(data)@.subrange(1, old(data)@.len() as int),
{
    match read_u8(data) {
        0 => Mirroring::Horizontal,
        1 => Mirroring::Vertical,
        2 => Mirroring::FourScreen,
        3 => Mirroring::SingleScreenLower,
        4 => Mirroring::SingleScreenUpper,
        _ => Mirroring::Horizontal,
    }
}

} // verus!
