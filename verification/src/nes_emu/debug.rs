//! The text of the emulator's debug panel: a short disassembly from the
//! program counter, the top of the stack, the status flags, the joypad
//! buttons and the PPU's decoded scroll, rendering and sprite state.
use vstd::prelude::*;

use crate::paths::{file_stem_of, last_part, name_stem, plain_path};
use crate::nes_cpu::bus::Bus;
use crate::nes_cpu::bus::BusIo;
use crate::nes_cpu::mapper::Mapper;
use crate::nes_cpu::opcodes::{byte_count, decode, instr_byte_count, opcode, AddrMode};
use crate::text::{dec, dec_string, hex2, hex4, pad_left, push_char, push_hex2, push_hex4, push_padded_left, push_str};

verus! {

/// The address `n` bytes after `a`, wrapping at 64 KiB.
pub open spec fn addr_plus(a: u16, n: int) -> u16 {
    ((a as int + n) % 65536) as u16
}

/// A byte as a signed offset.
pub open spec fn signed_offset(b: u8) -> int {
    if b < 128 {
        b as int
    } else {
        b as int - 256
    }
}

/// The target of a relative branch at `addr` with offset byte `lo`.
pub open spec fn branch_target(addr: u16, lo: u8) -> u16 {
    ((addr as int + 2 + signed_offset(lo)) % 65536) as u16
}

/// The operand of an instruction at `addr` as the panel shows it; `lo` and
/// `hi` are the two bytes after the opcode.
pub open spec fn operand_text(addr: u16, mode: AddrMode, lo: u8, hi: u8) -> Seq<char> {
    let word = (hi as u16) * 256 + lo as u16;
    match mode {
        AddrMode::Implied | AddrMode::Accumulator => Seq::empty(),
        AddrMode::Immediate => "#$"@ + hex2(lo),
        AddrMode::ZeroPage => "$"@ + hex2(lo),
        AddrMode::ZeroPageX => "$"@ + hex2(lo) + ",X"@,
        AddrMode::ZeroPageY => "$"@ + hex2(lo) + ",Y"@,
        AddrMode::Absolute => "$"@ + hex4(word as u16),
        AddrMode::AbsoluteX => "$"@ + hex4(word as u16) + ",X"@,
        AddrMode::AbsoluteY => "$"@ + hex4(word as u16) + ",Y"@,
        AddrMode::Indirect => "($"@ + hex4(word as u16) + ")"@,
        AddrMode::IndirectX => "($"@ + hex2(lo) + ",X)"@,
        AddrMode::IndirectY => "($"@ + hex2(lo) + "),Y"@,
        AddrMode::Relative => "$"@ + hex4(branch_target(addr, lo)),
    }
}

/// The bytes column: the instruction's bytes in hex, padded to eight
/// characters.
pub open spec fn bytes_text(size: u8, op: u8, lo: u8, hi: u8) -> Seq<char> {
    if size == 1 {
        hex2(op) + "      "@
    } else if size == 2 {
        hex2(op) + " "@ + hex2(lo) + "   "@
    } else {
        hex2(op) + " "@ + hex2(lo) + " "@ + hex2(hi)
    }
}

/// The disassembly line of the instruction at `addr`.
pub open spec fn disassembly_line<M: Mapper, I: BusIo>(b: Bus<M, I>, addr: u16) -> Seq<char> {
    let op = b.peek_spec(addr);
    let ins = opcode(op);
    let lo = b.peek_spec(addr_plus(addr, 1));
    let hi = b.peek_spec(addr_plus(addr, 2));
    hex4(addr) + " "@ + bytes_text(byte_count(ins.mode), op, lo, hi) + " "@ + ins.mnemonic@ + " "@
        + operand_text(addr, ins.mode, lo, hi)
}

/// The address of the `i`-th instruction from `pc`.
pub open spec fn disassembly_addr<M: Mapper, I: BusIo>(b: Bus<M, I>, pc: u16, i: nat) -> u16
    decreases i,
{
    if i == 0 {
        pc
    } else {
        let a = disassembly_addr(b, pc, (i - 1) as nat);
        addr_plus(a, byte_count(opcode(b.peek_spec(a)).mode) as int)
    }
}

fn wrap_add(a: u16, n: u16) -> (r: u16)
    ensures
        r == addr_plus(a, n as int),
{
    if a as u32 + n as u32 >= 65536 {
        (a as u32 + n as u32 - 65536) as u16
    } else {
        a + n
    }
}

/// The operand text of an instruction at `addr`.
pub fn operand(addr: u16, mode: AddrMode, lo: u8, hi: u8) -> (r: String)
    ensures
        r@ == operand_text(addr, mode, lo, hi),
{
    let word: u16 = (hi as u16) * 256 + lo as u16;
    let mut s = String::new();
    match mode {
        AddrMode::Implied | AddrMode::Accumulator => {},
        AddrMode::Immediate => {
            push_str(&mut s, "#$");
            push_hex2(&mut s, lo);
        },
        AddrMode::ZeroPage => {
            push_str(&mut s, "$");
            push_hex2(&mut s, lo);
        },
        AddrMode::ZeroPageX => {
            push_str(&mut s, "$");
            push_hex2(&mut s, lo);
            push_str(&mut s, ",X");
        },
        AddrMode::ZeroPageY => {
            push_str(&mut s, "$");
            push_hex2(&mut s, lo);
            push_str(&mut s, ",Y");
        },
        AddrMode::Absolute => {
            push_str(&mut s, "$");
            push_hex4(&mut s, word);
        },
        AddrMode::AbsoluteX => {
            push_str(&mut s, "$");
            push_hex4(&mut s, word);
            push_str(&mut s, ",X");
        },
        AddrMode::AbsoluteY => {
            push_str(&mut s, "$");
            push_hex4(&mut s, word);
            push_str(&mut s, ",Y");
        },
        AddrMode::Indirect => {
            push_str(&mut s, "($");
            push_hex4(&mut s, word);
            push_str(&mut s, ")");
        },
        AddrMode::IndirectX => {
            push_str(&mut s, "($");
            push_hex2(&mut s, lo);
            push_str(&mut s, ",X)");
        },
        AddrMode::IndirectY => {
            push_str(&mut s, "($");
            push_hex2(&mut s, lo);
            push_str(&mut s, "),Y");
        },
        AddrMode::Relative => {
            let base = wrap_add(addr, 2);
            let target = if lo < 128 {
                wrap_add(base, lo as u16)
            } else {
                wrap_add(base, 65280 + lo as u16)
            };
            assert(target == branch_target(addr, lo));
            push_str(&mut s, "$");
            push_hex4(&mut s, target);
        },
    }
    if mode == AddrMode::Implied || mode == AddrMode::Accumulator {
        assert(s@ =~= Seq::<char>::empty());
    }
    s
}

/// The disassembly line of the instruction at `addr`.
pub fn disassembly_line_at<M: Mapper, I: BusIo>(bus: &Bus<M, I>, addr: u16) -> (r: (String, u16))
    requires
        bus.wf(),
    ensures
        r.0@ == disassembly_line(*bus, addr),
        r.1 == byte_count(opcode(bus.peek_spec(addr)).mode),
{
    let op = bus.peek(addr);
    let ins = decode(op);
    let size = instr_byte_count(ins.mode);
    let lo = bus.peek(wrap_add(addr, 1));
    let hi = bus.peek(wrap_add(addr, 2));
    let mut s = String::new();
    push_hex4(&mut s, addr);
    push_str(&mut s, " ");
    push_hex2(&mut s, op);
    if size == 1 {
        push_str(&mut s, "      ");
    } else if size == 2 {
        push_str(&mut s, " ");
        push_hex2(&mut s, lo);
        push_str(&mut s, "   ");
    } else {
        push_str(&mut s, " ");
        push_hex2(&mut s, lo);
        push_str(&mut s, " ");
        push_hex2(&mut s, hi);
    }
    push_str(&mut s, " ");
    push_str(&mut s, ins.mnemonic);
    push_str(&mut s, " ");
    push_str(&mut s, operand(addr, ins.mode, lo, hi).as_str());
    (s, size as u16)
}

/// The number of disassembly lines the panel shows.
pub const DISASSEMBLY_LINES: usize = 6;

/// The disassembly of `count` instructions from `pc`, one line each.
pub fn disassembly<M: Mapper, I: BusIo>(bus: &Bus<M, I>, pc: u16, count: usize) -> (r: Vec<String>)
    requires
        bus.wf(),
    ensures
        r@.len() == count,
        forall|i: int| 0 <= i < count ==> #[trigger] r@[i]@ == disassembly_line(*bus, disassembly_addr(*bus, pc, i as nat)),
{
    let mut lines: Vec<String> = Vec::new();
    let mut addr = pc;
    let mut i: usize = 0;
    while i < count
        invariant
            bus.wf(),
            i <= count,
            lines@.len() == i,
            addr == disassembly_addr(*bus, pc, i as nat),
            forall|k: int| 0 <= k < i ==> #[trigger] lines@[k]@ == disassembly_line(*bus, disassembly_addr(*bus, pc, k as nat)),
        decreases count - i,
    {
        let (line, size) = disassembly_line_at(bus, addr);
        lines.push(line);
        addr = wrap_add(addr, size);
        i = i + 1;
    }
    lines
}

// ---------------------------------------------------------------------------
// Stack, flags, joypad.
// ---------------------------------------------------------------------------

/// How many stack bytes the panel shows: those above the stack pointer,
/// at most eight.
pub open spec fn stack_depth(sp: u8) -> nat {
    if 255 - sp < 8 {
        (255 - sp) as nat
    } else {
        8
    }
}

/// The stack byte `i` places above the stack pointer.
pub open spec fn stack_byte<M: Mapper, I: BusIo>(b: Bus<M, I>, sp: u8, i: int) -> u8 {
    b.peek_spec((0x100 + (sp as int + 1 + i) % 256) as u16)
}

/// The top of the stack: its bytes in hex, separated by spaces.
pub open spec fn stack_text_of<M: Mapper, I: BusIo>(b: Bus<M, I>, sp: u8, n: nat) -> Seq<char>
    decreases n,
{
    if n == 0 {
        Seq::empty()
    } else if n == 1 {
        hex2(stack_byte(b, sp, 0))
    } else {
        stack_text_of(b, sp, (n - 1) as nat) + " "@ + hex2(stack_byte(b, sp, n - 1))
    }
}

/// The top of the stack as the panel shows it (empty when the stack is).
pub fn stack_text<M: Mapper, I: BusIo>(bus: &Bus<M, I>, sp: u8) -> (r: String)
    requires
        bus.wf(),
    ensures
        r@ == stack_text_of(*bus, sp, stack_depth(sp)),
{
    let depth: u8 = if 255 - sp < 8 {
        255 - sp
    } else {
        8
    };
    let mut s = String::new();
    let mut i: u8 = 0;
    while i < depth
        invariant
            bus.wf(),
            depth == stack_depth(sp),
            i <= depth <= 8,
            s@ == stack_text_of(*bus, sp, i as nat),
        decreases depth - i,
    {
        let slot: u16 = ((sp as u16 + 1 + i as u16) % 256) as u16;
        let val = bus.peek(0x100 + slot);
        if i > 0 {
            push_str(&mut s, " ");
        }
        push_hex2(&mut s, val);
        i = i + 1;
    }
    s
}

/// The status flags as the panel lists them: N V D I Z C B, each with
/// whether its bit is set.
pub open spec fn flag_list(p: u8) -> Seq<(char, bool)> {
    seq![
        ('N', p & 0x80 != 0),
        ('V', p & 0x40 != 0),
        ('D', p & 0x08 != 0),
        ('I', p & 0x04 != 0),
        ('Z', p & 0x02 != 0),
        ('C', p & 0x01 != 0),
        ('B', p & 0x10 != 0),
    ]
}

/// The status flags with their states.
pub fn flags(p: u8) -> (r: Vec<(char, bool)>)
    ensures
        r@ == flag_list(p),
{
    let mut v = Vec::new();
    v.push(('N', p & 0x80 != 0));
    v.push(('V', p & 0x40 != 0));
    v.push(('D', p & 0x08 != 0));
    v.push(('I', p & 0x04 != 0));
    v.push(('Z', p & 0x02 != 0));
    v.push(('C', p & 0x01 != 0));
    v.push(('B', p & 0x10 != 0));
    assert(v@ =~= flag_list(p));
    v
}

/// A button's name when it is pressed, `.` when not.
pub open spec fn button_text(pressed: bool, name: Seq<char>) -> Seq<char> {
    if pressed {
        name
    } else {
        "."@
    }
}

/// The joypad line: A, B, SEL, STA, U, D, L, R (bits 0 to 7), `.` for the
/// buttons not pressed, two spaces apart.
pub open spec fn joypad_text_of(b: u8) -> Seq<char> {
    button_text(b & 0x01 != 0, "A"@) + "  "@ + button_text(b & 0x02 != 0, "B"@) + "  "@ + button_text(
        b & 0x04 != 0,
        "SEL"@,
    ) + "  "@ + button_text(b & 0x08 != 0, "STA"@) + "  "@ + button_text(b & 0x10 != 0, "U"@) + "  "@
        + button_text(b & 0x20 != 0, "D"@) + "  "@ + button_text(b & 0x40 != 0, "L"@) + "  "@ + button_text(
        b & 0x80 != 0,
        "R"@,
    )
}

fn push_button(s: &mut String, pressed: bool, name: &str)
    ensures
        final(s)@ == old(s)@ + button_text(pressed, name@),
{
    if pressed {
        push_str(s, name);
    } else {
        push_str(s, ".");
    }
}

/// The joypad line.
pub fn joypad_text(b: u8) -> (r: String)
    ensures
        r@ == joypad_text_of(b),
{
    let mut s = String::new();
    push_button(&mut s, b & 0x01 != 0, "A");
    push_str(&mut s, "  ");
    push_button(&mut s, b & 0x02 != 0, "B");
    push_str(&mut s, "  ");
    push_button(&mut s, b & 0x04 != 0, "SEL");
    push_str(&mut s, "  ");
    push_button(&mut s, b & 0x08 != 0, "STA");
    push_str(&mut s, "  ");
    push_button(&mut s, b & 0x10 != 0, "U");
    push_str(&mut s, "  ");
    push_button(&mut s, b & 0x20 != 0, "D");
    push_str(&mut s, "  ");
    push_button(&mut s, b & 0x40 != 0, "L");
    push_str(&mut s, "  ");
    push_button(&mut s, b & 0x80 != 0, "R");
    s
}

// ---------------------------------------------------------------------------
// PPU.
// ---------------------------------------------------------------------------

/// The scroll position in the VRAM address `v` and fine X: coarse X times
/// eight plus fine X, coarse Y times eight plus fine Y, and the nametable.
pub open spec fn scroll_of(v: u16, fine_x: u8) -> (u16, u16, u16) {
    (
        ((v & 0x1F) << 3u16) | fine_x as u16,
        (((v >> 5u16) & 0x1F) << 3u16) | ((v >> 12u16) & 0x07),
        (v >> 10u16) & 0x03,
    )
}

/// The decoded scroll position.
pub fn scroll(v: u16, fine_x: u8) -> (r: (u16, u16, u16))
    ensures
        r == scroll_of(v, fine_x),
{
    (((v & 0x1F) << 3) | fine_x as u16, (((v >> 5) & 0x1F) << 3) | ((v >> 12) & 0x07), (v >> 10) & 0x03)
}

/// `BG:ON ` or `BG:off`, the same for sprites, and `  GREY` in greyscale
/// mode.
pub open spec fn render_flags_of(mask: u8) -> Seq<char> {
    "BG:"@ + (if mask & 0x08 != 0 {
        "ON "@
    } else {
        "off"@
    }) + "  SPR:"@ + (if mask & 0x10 != 0 {
        "ON "@
    } else {
        "off"@
    }) + (if mask & 0x01 != 0 {
        "  GREY"@
    } else {
        Seq::empty()
    })
}

/// The rendering switches of the PPU's mask register.
pub fn render_flags(mask: u8) -> (r: String)
    ensures
        r@ == render_flags_of(mask),
{
    let mut s = String::new();
    push_str(&mut s, "BG:");
    push_str(&mut s, if mask & 0x08 != 0 { "ON " } else { "off" });
    push_str(&mut s, "  SPR:");
    push_str(&mut s, if mask & 0x10 != 0 { "ON " } else { "off" });
    if mask & 0x01 != 0 {
        push_str(&mut s, "  GREY");
    } else {
        assert(s@ =~= s@ + Seq::<char>::empty());
    }
    s
}

/// The number of the first `n` sprites whose Y coordinate is on screen
/// (below 240).
pub open spec fn visible_sprites(oam: Seq<u8>, n: nat) -> nat
    decreases n,
{
    if n == 0 {
        0
    } else {
        visible_sprites(oam, (n - 1) as nat) + if oam[4 * (n - 1)] < 240 {
            1nat
        } else {
            0nat
        }
    }
}

/// The sprite line: how many of the 64 sprites are on screen, and the
/// sprite height (16 when the control register asks for tall sprites).
pub open spec fn sprite_line_of(oam: Seq<u8>, ctrl: u8) -> Seq<char> {
    "Sprites: "@ + dec(visible_sprites(oam, 64)) + "/64  H:"@ + (if ctrl & 0x20 != 0 {
        "16"@
    } else {
        "8"@
    })
}

/// The sprite line of the panel.
pub fn sprite_line(oam: &[u8], ctrl: u8) -> (r: String)
    requires
        oam@.len() >= 256,
    ensures
        r@ == sprite_line_of(oam@, ctrl),
{
    let mut count: u64 = 0;
    let mut i: usize = 0;
    while i < 64
        invariant
            oam@.len() >= 256,
            i <= 64,
            count == visible_sprites(oam@, i as nat),
            count <= i,
        decreases 64 - i,
    {
        if oam[4 * i] < 240 {
            count = count + 1;
        }
        i = i + 1;
    }
    let mut s = String::new();
    push_str(&mut s, "Sprites: ");
    push_str(&mut s, dec_string(count).as_str());
    push_str(&mut s, "/64  H:");
    push_str(&mut s, if ctrl & 0x20 != 0 { "16" } else { "8" });
    s
}

/// `Scanline: SSS  Dot: DDD`, right-aligned in three columns.
pub fn position_line(scanline: u16, dot: u16) -> (r: String)
    ensures
        r@ == "Scanline: "@ + pad_left(dec(scanline as nat), 3) + "  Dot: "@ + pad_left(dec(dot as nat), 3),
{
    let mut s = String::new();
    push_str(&mut s, "Scanline: ");
    push_padded_left(&mut s, dec_string(scanline as u64).as_str(), 3);
    push_str(&mut s, "  Dot: ");
    push_padded_left(&mut s, dec_string(dot as u64).as_str(), 3);
    s
}

/// The file a cartridge's save state goes to: its file name's stem (or
/// `unknown`) with `.sav`.
pub fn save_state_path(file_name: &str) -> (r: String)
    ensures
        plain_path(file_name@) ==> r@ == name_stem(last_part(file_name@)) + ".sav"@,
        file_name@.len() == 0 ==> r@ == "unknown"@ + ".sav"@,
{
    let stem = match file_stem_of(file_name) {
        Some(s) => s,
        None => "unknown".to_string(),
    };
    let mut r = String::new();
    push_str(&mut r, stem.as_str());
    push_str(&mut r, ".sav");
    r
}

// ---------------------------------------------------------------------------
// Register and cartridge lines.
// ---------------------------------------------------------------------------

/// `A:AA  X:XX  Y:YY`.
pub fn registers_line(a: u8, x: u8, y: u8) -> (r: String)
    ensures
        r@ == "A:"@ + hex2(a) + "  X:"@ + hex2(x) + "  Y:"@ + hex2(y),
{
    let mut s = String::new();
    push_str(&mut s, "A:");
    push_hex2(&mut s, a);
    push_str(&mut s, "  X:");
    push_hex2(&mut s, x);
    push_str(&mut s, "  Y:");
    push_hex2(&mut s, y);
    s
}

/// `PC:PPPP  SP:SS`.
pub fn pointers_line(pc: u16, sp: u8) -> (r: String)
    ensures
        r@ == "PC:"@ + hex4(pc) + "  SP:"@ + hex2(sp),
{
    let mut s = String::new();
    push_str(&mut s, "PC:");
    push_hex4(&mut s, pc);
    push_str(&mut s, "  SP:");
    push_hex2(&mut s, sp);
    s
}

/// `Cycles: N`.
pub fn cycles_line(cycles: u64) -> (r: String)
    ensures
        r@ == "Cycles: "@ + dec(cycles as nat),
{
    let mut s = String::new();
    push_str(&mut s, "Cycles: ");
    push_str(&mut s, dec_string(cycles).as_str());
    s
}

/// `PRG: NKB  CHR: MKB`: the ROM sizes in whole KiB.
pub fn rom_sizes_line(prg_bytes: usize, chr_bytes: usize) -> (r: String)
    ensures
        r@ == "PRG: "@ + dec((prg_bytes / 1024) as nat) + "KB  CHR: "@ + dec((chr_bytes / 1024) as nat) + "KB"@,
{
    let mut s = String::new();
    push_str(&mut s, "PRG: ");
    push_str(&mut s, dec_string((prg_bytes / 1024) as u64).as_str());
    push_str(&mut s, "KB  CHR: ");
    push_str(&mut s, dec_string((chr_bytes / 1024) as u64).as_str());
    push_str(&mut s, "KB");
    s
}

/// `CTRL:CC  MASK:MM  STATUS:SS`.
pub fn ppu_registers_line(ctrl: u8, mask: u8, status: u8) -> (r: String)
    ensures
        r@ == "CTRL:"@ + hex2(ctrl) + "  MASK:"@ + hex2(mask) + "  STATUS:"@ + hex2(status),
{
    let mut s = String::new();
    push_str(&mut s, "CTRL:");
    push_hex2(&mut s, ctrl);
    push_str(&mut s, "  MASK:");
    push_hex2(&mut s, mask);
    push_str(&mut s, "  STATUS:");
    push_hex2(&mut s, status);
    s
}

/// `Scroll: X:xxx Y:yyy NT:n`, the coordinates right-aligned in three
/// columns.
pub fn scroll_line(v: u16, fine_x: u8) -> (r: String)
    ensures
        ({
            let (x, y, nt) = scroll_of(v, fine_x);
            r@ == "Scroll: X:"@ + pad_left(dec(x as nat), 3) + " Y:"@ + pad_left(dec(y as nat), 3) + " NT:"@ + dec(
                nt as nat,
            )
        }),
{
    let (x, y, nt) = scroll(v, fine_x);
    let mut s = String::new();
    push_str(&mut s, "Scroll: X:");
    push_padded_left(&mut s, dec_string(x as u64).as_str(), 3);
    push_str(&mut s, " Y:");
    push_padded_left(&mut s, dec_string(y as u64).as_str(), 3);
    push_str(&mut s, " NT:");
    push_str(&mut s, dec_string(nt as u64).as_str());
    s
}

} // verus!
