//! The emulator's save-state file: a `NESS` header with a version byte, the
//! CPU registers, the RAM and the components' state blobs (each framed by a
//! 32-bit length), and the system's cycle counters.
use vstd::prelude::*;

use crate::nes_cpu::state::{
    from_le16, from_le32, from_le64, le16, le32, le64, lemma_le16_roundtrip, lemma_le32_roundtrip,
    lemma_le64_roundtrip, read_bytes, read_u16, read_u64, read_u8, write_bytes, write_u16, write_u64,
    write_u8,
};
use crate::text::{dec, dec_string, push_str};

verus! {

/// The save-state format version written and accepted.
pub const VERSION: u8 = 1;

/// The size of the CPU's RAM.
pub const RAM_SIZE: usize = 2048;

/// The CPU registers and cycle count.
#[derive(Debug, Clone, Copy, PartialEq, Eq, Structural)]
pub struct CpuRegisters {
    pub a: u8,
    pub x: u8,
    pub y: u8,
    pub pc: u16,
    pub sp: u8,
    pub p: u8,
    pub cycles: u64,
}

/// Everything a save state holds; the component states are opaque blobs.
#[derive(Debug, Clone)]
pub struct SaveState {
    pub cpu: CpuRegisters,
    pub ram: Vec<u8>,
    /// Absent when the cartridge has no mapper.
    pub mapper: Option<Vec<u8>>,
    pub ppu: Vec<u8>,
    pub apu: Vec<u8>,
    pub joypad1: Vec<u8>,
    pub joypad2: Vec<u8>,
    pub cpu_cycles: u64,
    pub ppu_cycles: u64,
}

/// A save state as values.
pub struct SaveStateModel {
    pub cpu: CpuRegisters,
    pub ram: Seq<u8>,
    pub mapper: Option<Seq<u8>>,
    pub ppu: Seq<u8>,
    pub apu: Seq<u8>,
    pub joypad1: Seq<u8>,
    pub joypad2: Seq<u8>,
    pub cpu_cycles: u64,
    pub ppu_cycles: u64,
}

impl View for SaveState {
    type V = SaveStateModel;

    open spec fn view(&self) -> SaveStateModel {
        SaveStateModel {
            cpu: self.cpu,
            ram: self.ram@,
            mapper: match self.mapper {
                Some(m) => Some(m@),
                None => None,
            },
            ppu: self.ppu@,
            apu: self.apu@,
            joypad1: self.joypad1@,
            joypad2: self.joypad2@,
            cpu_cycles: self.cpu_cycles,
            ppu_cycles: self.ppu_cycles,
        }
    }
}

/// Why a save state was refused.
#[derive(Debug, Clone, Copy, PartialEq, Eq, Structural)]
pub enum SaveError {
    /// Fewer than five bytes: no room for the header.
    TooSmall,
    /// The first four bytes are not `NESS`.
    InvalidMagic,
    /// The version byte is not the one this emulator writes.
    UnsupportedVersion { version: u8 },
    /// The RAM blob does not hold 2048 bytes.
    InvalidRamSize { size: usize },
}

/// The message shown for a refused save state.
pub open spec fn error_text(e: SaveError) -> Seq<char> {
    match e {
        SaveError::TooSmall => "Save state too small"@,
        SaveError::InvalidMagic => "Invalid save state magic"@,
        SaveError::UnsupportedVersion { version } => "Unsupported save state version: "@ + dec(version as nat),
        SaveError::InvalidRamSize { size } => "Invalid RAM size: "@ + dec(size as nat),
    }
}

impl SaveError {
    /// The message shown for the error.
    pub fn message(&self) -> (r: String)
        ensures
            r@ == error_text(*self),
    {
        let mut r = String::new();
        match self {
            SaveError::TooSmall => push_str(&mut r, "Save state too small"),
            SaveError::InvalidMagic => push_str(&mut r, "Invalid save state magic"),
            SaveError::UnsupportedVersion { version } => {
                push_str(&mut r, "Unsupported save state version: ");
                push_str(&mut r, dec_string(*version as u64).as_str());
            },
            SaveError::InvalidRamSize { size } => {
                push_str(&mut r, "Invalid RAM size: ");
                push_str(&mut r, dec_string(*size as u64).as_str());
            },
        }
        r
    }
}

/// `NESS`.
pub open spec fn magic() -> Seq<u8> {
    seq![0x4Eu8, 0x45u8, 0x53u8, 0x53u8]
}

/// A blob with its 32-bit length before it.
pub open spec fn framed(b: Seq<u8>) -> Seq<u8> {
    le32(b.len() as u32) + b
}

/// The header and the CPU registers: 20 bytes.
pub open spec fn head_bytes(c: CpuRegisters) -> Seq<u8> {
    magic() + seq![VERSION, c.a, c.x, c.y] + le16(c.pc) + seq![c.sp, c.p] + le64(c.cycles)
}

/// The mapper blob as written: framed when there is one, else nothing.
pub open spec fn mapper_bytes(mapper: Option<Seq<u8>>) -> Seq<u8> {
    match mapper {
        Some(b) => framed(b),
        None => Seq::empty(),
    }
}

/// The bytes of a save state. The mapper blob is written only when there
/// is a mapper.
pub open spec fn save_bytes(m: SaveStateModel) -> Seq<u8> {
    head_bytes(m.cpu) + (framed(m.ram) + (mapper_bytes(m.mapper) + (framed(m.ppu) + (framed(m.apu) + (
    framed(m.joypad1) + (framed(m.joypad2) + (le64(m.cpu_cycles) + le64(m.ppu_cycles))))))))
}

/// The length stored at `at`.
pub open spec fn u32_at(d: Seq<u8>, at: int) -> int {
    from_le32(d.subrange(at, d.len() as int)) as int
}

/// The blob framed at `at`.
pub open spec fn blob_at(d: Seq<u8>, at: int) -> Seq<u8> {
    d.subrange(at + 4, at + 4 + u32_at(d, at))
}

/// Where the blob framed at `at` ends.
pub open spec fn after_blob(d: Seq<u8>, at: int) -> int {
    at + 4 + u32_at(d, at)
}

/// A whole blob is framed at `at`.
pub open spec fn blob_fits(d: Seq<u8>, at: int) -> bool {
    at + 4 <= d.len() && after_blob(d, at) <= d.len()
}

/// Where the RAM blob starts.
pub open spec fn ram_at() -> int {
    20
}

/// Where the blobs after the RAM start: mapper, PPU, APU, joypad 1 and 2.
pub open spec fn mapper_at(d: Seq<u8>) -> int {
    after_blob(d, ram_at())
}

pub open spec fn ppu_at(d: Seq<u8>) -> int {
    after_blob(d, mapper_at(d))
}

pub open spec fn apu_at(d: Seq<u8>) -> int {
    after_blob(d, ppu_at(d))
}

pub open spec fn joypad1_at(d: Seq<u8>) -> int {
    after_blob(d, apu_at(d))
}

pub open spec fn joypad2_at(d: Seq<u8>) -> int {
    after_blob(d, joypad1_at(d))
}

pub open spec fn counters_at(d: Seq<u8>) -> int {
    after_blob(d, joypad2_at(d))
}

/// The header is refused: too short, a wrong magic or version.
pub open spec fn header_refused(d: Seq<u8>) -> bool {
    d.len() < 5 || d.take(4) != magic() || d[4] != VERSION
}

/// Every read that loading makes stays within the bytes: the header is
/// refused, or the registers and the RAM blob are there and, when the RAM
/// has the right size, every later blob and both counters are there too.
pub open spec fn load_reads_fit(d: Seq<u8>) -> bool {
    header_refused(d) || {
        &&& blob_fits(d, ram_at())
        &&& blob_at(d, ram_at()).len() == RAM_SIZE ==> {
            &&& blob_fits(d, mapper_at(d))
            &&& blob_fits(d, ppu_at(d))
            &&& blob_fits(d, apu_at(d))
            &&& blob_fits(d, joypad1_at(d))
            &&& blob_fits(d, joypad2_at(d))
            &&& counters_at(d) + 16 <= d.len()
        }
    }
}

/// The registers stored after the header.
pub open spec fn registers_at(d: Seq<u8>) -> CpuRegisters {
    CpuRegisters {
        a: d[5],
        x: d[6],
        y: d[7],
        pc: from_le16(d.subrange(8, d.len() as int)),
        sp: d[10],
        p: d[11],
        cycles: from_le64(d.subrange(12, d.len() as int)),
    }
}

/// What loading the bytes gives. The mapper blob is always read.
pub open spec fn load_result(d: Seq<u8>) -> Result<SaveStateModel, SaveError> {
    if d.len() < 5 {
        Err(SaveError::TooSmall)
    } else if d.take(4) != magic() {
        Err(SaveError::InvalidMagic)
    } else if d[4] != VERSION {
        Err(SaveError::UnsupportedVersion { version: d[4] })
    } else if blob_at(d, ram_at()).len() != RAM_SIZE {
        Err(SaveError::InvalidRamSize { size: blob_at(d, ram_at()).len() as usize })
    } else {
        Ok(
            SaveStateModel {
                cpu: registers_at(d),
                ram: blob_at(d, ram_at()),
                mapper: Some(blob_at(d, mapper_at(d))),
                ppu: blob_at(d, ppu_at(d)),
                apu: blob_at(d, apu_at(d)),
                joypad1: blob_at(d, joypad1_at(d)),
                joypad2: blob_at(d, joypad2_at(d)),
                cpu_cycles: from_le64(d.subrange(counters_at(d), d.len() as int)),
                ppu_cycles: from_le64(d.subrange(counters_at(d) + 8, d.len() as int)),
            },
        )
    }
}

/// Appends the header and the registers.
fn write_head(out: &mut Vec<u8>, c: &CpuRegisters)
    ensures
        final(out)@ == old(out)@ + head_bytes(*c),
{
    let ghost start = out@;
    write_u8(out, 0x4E);
    write_u8(out, 0x45);
    write_u8(out, 0x53);
    write_u8(out, 0x53);
    write_u8(out, VERSION);
    write_u8(out, c.a);
    write_u8(out, c.x);
    write_u8(out, c.y);
    write_u16(out, c.pc);
    write_u8(out, c.sp);
    write_u8(out, c.p);
    write_u64(out, c.cycles);
    assert(out@ =~= start + head_bytes(*c));
}

/// Appends one framed blob, keeping `out + rest` equal to `total`.
fn write_part(out: &mut Vec<u8>, b: &[u8], Ghost(rest): Ghost<Seq<u8>>, Ghost(total): Ghost<Seq<u8>>)
    requires
        old(out)@ + (framed(b@) + rest) == total,
    ensures
        final(out)@ + rest == total,
{
    let ghost before = out@;
    write_bytes(out, b);
    proof {
        vstd::seq_lib::lemma_concat_associative(before, framed(b@), rest);
    }
}

/// The bytes after the blobs: the two cycle counters.
fn write_counters(out: &mut Vec<u8>, a: u64, b: u64, Ghost(total): Ghost<Seq<u8>>)
    requires
        old(out)@ + (le64(a) + le64(b)) == total,
    ensures
        final(out)@ == total,
{
    let ghost before = out@;
    write_u64(out, a);
    write_u64(out, b);
    proof {
        vstd::seq_lib::lemma_concat_associative(before, le64(a), le64(b));
    }
}

/// The bytes of a save state.
pub fn save(state: &SaveState) -> (out: Vec<u8>)
    ensures
        out@ == save_bytes(state@),
{
    let ghost m = state@;
    let ghost total = save_bytes(m);
    let ghost r7 = le64(m.cpu_cycles) + le64(m.ppu_cycles);
    let ghost r6 = framed(m.joypad2) + r7;
    let ghost r5 = framed(m.joypad1) + r6;
    let ghost r4 = framed(m.apu) + r5;
    let ghost r3 = framed(m.ppu) + r4;
    let ghost r2 = mapper_bytes(m.mapper) + r3;
    let mut out: Vec<u8> = Vec::new();
    write_head(&mut out, &state.cpu);
    assert(out@ =~= head_bytes(state.cpu));
    write_part(&mut out, state.ram.as_slice(), Ghost(r2), Ghost(total));
    match &state.mapper {
        Some(b) => {
            write_part(&mut out, b.as_slice(), Ghost(r3), Ghost(total));
        },
        None => {
            assert(mapper_bytes(m.mapper) =~= Seq::<u8>::empty());
            assert(r2 =~= r3);
        },
    }
    write_part(&mut out, state.ppu.as_slice(), Ghost(r4), Ghost(total));
    write_part(&mut out, state.apu.as_slice(), Ghost(r5), Ghost(total));
    write_part(&mut out, state.joypad1.as_slice(), Ghost(r6), Ghost(total));
    write_part(&mut out, state.joypad2.as_slice(), Ghost(r7), Ghost(total));
    write_counters(&mut out, state.cpu_cycles, state.ppu_cycles, Ghost(total));
    out
}

/// Whether every read that loading these bytes makes stays within them.
pub fn load_reads_within(data: &[u8]) -> (r: bool)
    ensures
        r == load_reads_fit(data@),
{
    let ghost d = data@;
    let n = data.len();
    if n < 5 || data[0] != 0x4E || data[1] != 0x45 || data[2] != 0x53 || data[3] != 0x53 || data[4] != VERSION {
        proof {
            if n >= 5 && d.take(4) == magic() {
                assert(d[0] == d.take(4)[0] && d[1] == d.take(4)[1] && d[2] == d.take(4)[2] && d[3] == d.take(4)[3]);
            }
        }
        return true;
    }
    assert(d.take(4) =~= magic());
    let (fits, at) = blob_end(data, 20);
    if !fits {
        return false;
    }
    let ram_len = at - 24;
    if ram_len != RAM_SIZE {
        return true;
    }
    let (fits, at) = blob_end(data, at);
    if !fits {
        return false;
    }
    let (fits, at) = blob_end(data, at);
    if !fits {
        return false;
    }
    let (fits, at) = blob_end(data, at);
    if !fits {
        return false;
    }
    let (fits, at) = blob_end(data, at);
    if !fits {
        return false;
    }
    let (fits, at) = blob_end(data, at);
    if !fits {
        return false;
    }
    at <= n && n - at >= 16
}

/// Whether a whole blob is framed at `at`, and where it ends.
fn blob_end(data: &[u8], at: usize) -> (r: (bool, usize))
    ensures
        r.0 == blob_fits(data@, at as int),
        r.0 ==> r.1 == after_blob(data@, at as int),
{
    let n = data.len();
    if at > n || n - at < 4 {
        return (false, 0);
    }
    let ghost d = data@;
    let mut cur: &[u8] = &data[at..n];
    let len = crate::nes_cpu::state::read_u32(&mut cur);
    assert(len == u32_at(d, at as int));
    if n - at - 4 < len as usize {
        return (false, 0);
    }
    (true, at + 4 + len as usize)
}

/// The blob framed at `at`, and where it ends.
fn read_blob_at(data: &[u8], at: usize) -> (r: (Vec<u8>, usize))
    requires
        blob_fits(data@, at as int),
    ensures
        r.0@ == blob_at(data@, at as int),
        r.1 == after_blob(data@, at as int),
{
    let ghost d = data@;
    let n = data.len();
    let mut cur: &[u8] = &data[at..n];
    assert(cur@ =~= d.subrange(at as int, n as int));
    let b = read_bytes(&mut cur);
    assert(b@ =~= blob_at(d, at as int));
    let end = at + 4 + b.len();
    (b, end)
}

/// The 64-bit value stored at `at`.
fn read_u64_at(data: &[u8], at: usize) -> (r: u64)
    requires
        at + 8 <= data@.len(),
    ensures
        r == from_le64(data@.subrange(at as int, data@.len() as int)),
{
    let n = data.len();
    let mut cur: &[u8] = &data[at..n];
    read_u64(&mut cur)
}

/// The registers stored after the header.
fn read_registers(data: &[u8]) -> (r: CpuRegisters)
    requires
        data@.len() >= 20,
    ensures
        r == registers_at(data@),
{
    let n = data.len();
    let mut cur: &[u8] = &data[8..n];
    let pc = read_u16(&mut cur);
    let cycles = read_u64_at(data, 12);
    CpuRegisters { a: data[5], x: data[6], y: data[7], pc, sp: data[10], p: data[11], cycles }
}

/// Load a save state. Loading reads past the end of the bytes nowhere:
/// `load_reads_within` tells whether that holds.
#[verifier::spinoff_prover]
pub fn load(data: &[u8]) -> (r: Result<SaveState, SaveError>)
    requires
        load_reads_fit(data@),
    ensures
        match (r, load_result(data@)) {
            (Ok(s), Ok(m)) => s@ == m,
            (Err(e), Err(f)) => e == f,
            _ => false,
        },
{
    let ghost d = data@;
    let n = data.len();
    if n < 5 {
        return Err(SaveError::TooSmall);
    }
    if data[0] != 0x4E || data[1] != 0x45 || data[2] != 0x53 || data[3] != 0x53 {
        proof {
            if d.take(4) == magic() {
                assert(d[0] == d.take(4)[0] && d[1] == d.take(4)[1] && d[2] == d.take(4)[2] && d[3] == d.take(4)[3]);
            }
        }
        return Err(SaveError::InvalidMagic);
    }
    assert(d.take(4) =~= magic());
    if data[4] != VERSION {
        return Err(SaveError::UnsupportedVersion { version: data[4] });
    }
    let cpu = read_registers(data);
    let (ram, at) = read_blob_at(data, 20);
    if ram.len() != RAM_SIZE {
        return Err(SaveError::InvalidRamSize { size: ram.len() });
    }
    let (mapper, at) = read_blob_at(data, at);
    let (ppu, at) = read_blob_at(data, at);
    let (apu, at) = read_blob_at(data, at);
    let (joypad1, at) = read_blob_at(data, at);
    let (joypad2, at) = read_blob_at(data, at);
    let cpu_cycles = read_u64_at(data, at);
    let ppu_cycles = read_u64_at(data, at + 8);
    let state = SaveState { cpu, ram, mapper: Some(mapper), ppu, apu, joypad1, joypad2, cpu_cycles, ppu_cycles };
    Ok(state)
}

/// A blob framed at `at`, with `rest` after it, is read back whole.
proof fn lemma_framed_at(d: Seq<u8>, at: int, b: Seq<u8>, rest: Seq<u8>)
    requires
        0 <= at <= d.len(),
        d.subrange(at, d.len() as int) == framed(b) + rest,
        b.len() <= u32::MAX,
    ensures
        blob_fits(d, at),
        u32_at(d, at) == b.len(),
        blob_at(d, at) == b,
        after_blob(d, at) == at + 4 + b.len(),
        d.subrange(after_blob(d, at), d.len() as int) == rest,
{
    let s = d.subrange(at, d.len() as int);
    assert(s =~= le32(b.len() as u32) + (b + rest));
    lemma_le32_roundtrip(b.len() as u32, b + rest);
    assert(u32_at(d, at) == b.len());
    assert(s.len() == 4 + b.len() + rest.len());
    assert forall|i: int| 0 <= i < b.len() implies d[at + 4 + i] == b[i] by {
        assert(s[4 + i] == d[at + 4 + i]);
    }
    assert(blob_at(d, at) =~= b);
    assert forall|i: int| 0 <= i < rest.len() implies d[at + 4 + b.len() + i] == rest[i] by {
        assert(s[4 + b.len() + i] == d[at + 4 + b.len() + i]);
    }
    assert(d.subrange(at + 4 + b.len(), d.len() as int) =~= rest);
}

proof fn lemma_head(c: CpuRegisters, tail: Seq<u8>)
    ensures
        ({
            let d = head_bytes(c) + tail;
            &&& d.len() >= 20
            &&& d.take(4) == magic()
            &&& d[4] == VERSION
            &&& registers_at(d) == c
            &&& d.subrange(20, d.len() as int) == tail
        }),
{
    let d = head_bytes(c) + tail;
    assert(d.take(4) =~= magic());
    assert(d.subrange(8, d.len() as int) =~= le16(c.pc) + d.subrange(10, d.len() as int));
    lemma_le16_roundtrip(c.pc, d.subrange(10, d.len() as int));
    assert(d.subrange(12, d.len() as int) =~= le64(c.cycles) + d.subrange(20, d.len() as int));
    lemma_le64_roundtrip(c.cycles, d.subrange(20, d.len() as int));
    assert(d.subrange(20, d.len() as int) =~= tail);
}

proof fn lemma_counters(d: Seq<u8>, at: int, a: u64, b: u64)
    requires
        0 <= at <= d.len(),
        d.subrange(at, d.len() as int) == le64(a) + le64(b),
    ensures
        at + 16 <= d.len(),
        from_le64(d.subrange(at, d.len() as int)) == a,
        from_le64(d.subrange(at + 8, d.len() as int)) == b,
{
    lemma_le64_roundtrip(a, le64(b));
    assert(d.subrange(at + 8, d.len() as int) =~= le64(b) + Seq::<u8>::empty()) by {
        assert forall|i: int| 0 <= i < 8 implies d[at + 8 + i] == le64(b)[i] by {
            assert(d.subrange(at, d.len() as int)[8 + i] == d[at + 8 + i]);
        }
    }
    lemma_le64_roundtrip(b, Seq::<u8>::empty());
}

/// Loading what was saved gives the saved state back, when the state has a
/// mapper blob, a RAM of 2048 bytes and blobs whose lengths fit in 32 bits.
#[verifier::spinoff_prover]
#[verifier::rlimit(40)]
pub proof fn lemma_save_load_roundtrip(m: SaveStateModel)
    requires
        m.ram.len() == RAM_SIZE,
        m.mapper is Some,
        m.mapper->0.len() <= u32::MAX,
        m.ppu.len() <= u32::MAX,
        m.apu.len() <= u32::MAX,
        m.joypad1.len() <= u32::MAX,
        m.joypad2.len() <= u32::MAX,
    ensures
        load_reads_fit(save_bytes(m)),
        load_result(save_bytes(m)) == Ok::<SaveStateModel, SaveError>(m),
{
    let d = save_bytes(m);
    let mb = m.mapper->0;
    let rest6 = le64(m.cpu_cycles) + le64(m.ppu_cycles);
    let rest5 = framed(m.joypad2) + rest6;
    let rest4 = framed(m.joypad1) + rest5;
    let rest3 = framed(m.apu) + rest4;
    let rest2 = framed(m.ppu) + rest3;
    let rest1 = mapper_bytes(m.mapper) + rest2;
    assert(mapper_bytes(m.mapper) == framed(mb));
    lemma_head(m.cpu, framed(m.ram) + rest1);
    lemma_framed_at(d, 20, m.ram, rest1);
    lemma_framed_at(d, mapper_at(d), mb, rest2);
    lemma_framed_at(d, ppu_at(d), m.ppu, rest3);
    lemma_framed_at(d, apu_at(d), m.apu, rest4);
    lemma_framed_at(d, joypad1_at(d), m.joypad1, rest5);
    lemma_framed_at(d, joypad2_at(d), m.joypad2, rest6);
    lemma_counters(d, counters_at(d), m.cpu_cycles, m.ppu_cycles);
}

} // verus!
