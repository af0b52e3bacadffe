//! The nestest-style trace line: the CPU state and the disassembled
//! instruction at PC, captured before it executes.
use vstd::prelude::*;

use crate::nes_cpu::bus::BusIo;
use crate::nes_cpu::cpu::Cpu;
use crate::nes_cpu::cpu::semantics::{inc16, signed, word};
use crate::nes_cpu::mapper::Mapper;
use crate::nes_cpu::opcodes::{
    AddrMode, Instruction, OpKind, byte_count, decode, instr_byte_count, opcode,
};
use crate::text::{
    dec, hex2, hex4, pad_left, pad_right, push_char, push_hex2, push_hex4, push_padded_left,
    push_padded_right, push_str, dec_string,
};

verus! {

/// The disassembly column for `ins` with operand bytes `b1`, `b2`, showing
/// effective addresses and the values stored there (read without side effects).
pub open spec fn operand_text<M: Mapper, I: BusIo>(
    cpu: Cpu<M, I>,
    ins: Instruction,
    b1: u8,
    b2: u8,
) -> Seq<char> {
    ins.mnemonic@ + operand_suffix(cpu, ins, b1, b2)
}

/// `$bb = vv`: a zero-page operand and the byte stored there.
pub open spec fn zp_text<M: Mapper, I: BusIo>(cpu: Cpu<M, I>, b1: u8) -> Seq<char> {
    seq![' ', '$'] + hex2(b1) + seq![' ', '=', ' '] + hex2(cpu.bus.peek_spec(b1 as u16))
}

/// `$bb,R @ ee = vv`: a zero-page operand indexed by register `r` (holding
/// `index`), its effective address and the byte stored there.
pub open spec fn zp_indexed_text<M: Mapper, I: BusIo>(
    cpu: Cpu<M, I>,
    b1: u8,
    r: char,
    index: u8,
) -> Seq<char> {
    let eff = ((b1 + index) % 256) as u8;
    seq![' ', '$'] + hex2(b1) + seq![',', r, ' ', '@', ' '] + hex2(eff) + seq![' ', '=', ' '] + hex2(
        cpu.bus.peek_spec(eff as u16),
    )
}

/// `$aaaa`, followed by ` = vv` (the byte there) except for JMP and JSR.
pub open spec fn abs_text<M: Mapper, I: BusIo>(cpu: Cpu<M, I>, ins: Instruction, abs: u16) -> Seq<
    char,
> {
    if ins.kind == OpKind::Jmp || ins.kind == OpKind::Jsr {
        seq![' ', '$'] + hex4(abs)
    } else {
        seq![' ', '$'] + hex4(abs) + seq![' ', '=', ' '] + hex2(cpu.bus.peek_spec(abs))
    }
}

/// `$aaaa,R @ eeee = vv`: an absolute operand indexed by register `r`.
pub open spec fn abs_indexed_text<M: Mapper, I: BusIo>(
    cpu: Cpu<M, I>,
    abs: u16,
    r: char,
    index: u8,
) -> Seq<char> {
    let eff = ((abs + index) % 65536) as u16;
    seq![' ', '$'] + hex4(abs) + seq![',', r, ' ', '@', ' '] + hex4(eff) + seq![' ', '=', ' ']
        + hex2(cpu.bus.peek_spec(eff))
}

/// `($pppp) = dddd`: the JMP pointer and its (same-page) target.
pub open spec fn indirect_text<M: Mapper, I: BusIo>(cpu: Cpu<M, I>, ptr: u16) -> Seq<char> {
    let dest = word(
        cpu.bus.peek_spec(ptr),
        cpu.bus.peek_spec((ptr / 256 * 256 + (ptr + 1) % 256) as u16),
    );
    seq![' ', '(', '$'] + hex4(ptr) + seq![')', ' ', '=', ' '] + hex4(dest)
}

/// `($bb,X) @ pp = eeee = vv`.
pub open spec fn indirect_x_text<M: Mapper, I: BusIo>(cpu: Cpu<M, I>, b1: u8) -> Seq<char> {
    let bus = cpu.bus;
    let ptr = ((b1 + cpu.x) % 256) as u8;
    let eff = word(bus.peek_spec(ptr as u16), bus.peek_spec(((ptr + 1) % 256) as u16));
    seq![' ', '(', '$'] + hex2(b1) + seq![',', 'X', ')', ' ', '@', ' '] + hex2(ptr) + seq![
        ' ',
        '=',
        ' ',
    ] + hex4(eff) + seq![' ', '=', ' '] + hex2(bus.peek_spec(eff))
}

/// `($bb),Y = bbbb @ eeee = vv`.
pub open spec fn indirect_y_text<M: Mapper, I: BusIo>(cpu: Cpu<M, I>, b1: u8) -> Seq<char> {
    let bus = cpu.bus;
    let base = word(bus.peek_spec(b1 as u16), bus.peek_spec(((b1 + 1) % 256) as u16));
    let eff = ((base + cpu.y) % 65536) as u16;
    seq![' ', '(', '$'] + hex2(b1) + seq![')', ',', 'Y', ' ', '=', ' '] + hex4(base) + seq![
        ' ',
        '@',
        ' ',
    ] + hex4(eff) + seq![' ', '=', ' '] + hex2(bus.peek_spec(eff))
}

/// The operand part of the disassembly column, after the mnemonic.
pub open spec fn operand_suffix<M: Mapper, I: BusIo>(
    cpu: Cpu<M, I>,
    ins: Instruction,
    b1: u8,
    b2: u8,
) -> Seq<char> {
    match ins.mode {
        AddrMode::Implied => Seq::empty(),
        AddrMode::Accumulator => seq![' ', 'A'],
        AddrMode::Immediate => seq![' ', '#', '$'] + hex2(b1),
        AddrMode::ZeroPage => zp_text(cpu, b1),
        AddrMode::ZeroPageX => zp_indexed_text(cpu, b1, 'X', cpu.x),
        AddrMode::ZeroPageY => zp_indexed_text(cpu, b1, 'Y', cpu.y),
        AddrMode::Absolute => abs_text(cpu, ins, word(b1, b2)),
        AddrMode::AbsoluteX => abs_indexed_text(cpu, word(b1, b2), 'X', cpu.x),
        AddrMode::AbsoluteY => abs_indexed_text(cpu, word(b1, b2), 'Y', cpu.y),
        AddrMode::Indirect => indirect_text(cpu, word(b1, b2)),
        AddrMode::IndirectX => indirect_x_text(cpu, b1),
        AddrMode::IndirectY => indirect_y_text(cpu, b1),
        AddrMode::Relative => seq![' ', '$'] + hex4(
            ((cpu.pc + 2 + signed(b1) + 65536) % 65536) as u16,
        ),
    }
}

/// The raw-bytes column: the instruction's bytes in hex, padded to 9 characters.
pub open spec fn raw_text(op: u8, b1: u8, b2: u8, n: u8) -> Seq<char> {
    if n == 1 {
        hex2(op) + seq![' ', ' ', ' ', ' ', ' ', ' ', ' ']
    } else if n == 2 {
        hex2(op) + seq![' '] + hex2(b1) + seq![' ', ' ', ' ', ' ']
    } else {
        hex2(op) + seq![' '] + hex2(b1) + seq![' '] + hex2(b2) + seq![' ']
    }
}

/// The trace line for the instruction at PC:
/// `PC  RAW  MNEMONIC-AND-OPERAND  A:.. X:.. Y:.. P:.. SP:.. PPU:line,dot CYC:n`,
/// where official mnemonics get a leading space so that all of them line
/// up with the `*` of the unofficial ones, and the PPU position is
/// approximated as three dots per CPU cycle on 341x262 frames.
pub open spec fn log_line<M: Mapper, I: BusIo>(cpu: Cpu<M, I>) -> Seq<char> {
    let bus = cpu.bus;
    let op = bus.peek_spec(cpu.pc);
    let ins = opcode(op);
    let n = byte_count(ins.mode);
    let b1 = if n > 1 { bus.peek_spec(inc16(cpu.pc)) } else { 0 };
    let b2 = if n > 2 { bus.peek_spec(((cpu.pc + 2) % 65536) as u16) } else { 0 };
    let operand = operand_text(cpu, ins, b1, b2);
    let column = if ins.mnemonic@.len() > 0 && ins.mnemonic@[0] == '*' {
        operand
    } else {
        seq![' '] + operand
    };
    hex4(cpu.pc) + seq![' ', ' '] + raw_text(op, b1, b2, n) + pad_right(column, 33) + regs_text(
        cpu,
    ) + timing_text(cpu.cycles)
}

/// `A:aa X:xx Y:yy P:pp SP:ss`.
pub open spec fn regs_text<M: Mapper, I: BusIo>(cpu: Cpu<M, I>) -> Seq<char> {
    seq!['A', ':'] + hex2(cpu.a) + seq![' ', 'X', ':'] + hex2(cpu.x) + seq![' ', 'Y', ':'] + hex2(
        cpu.y,
    ) + seq![' ', 'P', ':'] + hex2(cpu.p) + seq![' ', 'S', 'P', ':'] + hex2(cpu.sp)
}

/// ` PPU:line,dot CYC:n`, with the PPU position approximated as three dots
/// per CPU cycle on 341x262 frames.
pub open spec fn timing_text(cycles: u64) -> Seq<char> {
    let ppu = cycles * 3;
    seq![' ', 'P', 'P', 'U', ':'] + pad_left(dec(((ppu / 341) % 262) as nat), 3) + seq![','] + pad_left(
        dec((ppu % 341) as nat),
        3,
    ) + seq![' ', 'C', 'Y', 'C', ':'] + dec(cycles as nat)
}



/// The characters of the string literals used in trace lines.
proof fn lemma_trace_literals()
    ensures
        " "@ == seq![' '],
        "  "@ == seq![' ', ' '],
        "    "@ == seq![' ', ' ', ' ', ' '],
        "       "@ == seq![' ', ' ', ' ', ' ', ' ', ' ', ' '],
        " #$"@ == seq![' ', '#', '$'],
        " $"@ == seq![' ', '$'],
        " ($"@ == seq![' ', '(', '$'],
        " = "@ == seq![' ', '=', ' '],
        " @ "@ == seq![' ', '@', ' '],
        " A"@ == seq![' ', 'A'],
        " CYC:"@ == seq![' ', 'C', 'Y', 'C', ':'],
        " P:"@ == seq![' ', 'P', ':'],
        " PPU:"@ == seq![' ', 'P', 'P', 'U', ':'],
        " SP:"@ == seq![' ', 'S', 'P', ':'],
        " X:"@ == seq![' ', 'X', ':'],
        " Y:"@ == seq![' ', 'Y', ':'],
        ") = "@ == seq![')', ' ', '=', ' '],
        "),Y = "@ == seq![')', ',', 'Y', ' ', '=', ' '],
        ","@ == seq![','],
        ",X) @ "@ == seq![',', 'X', ')', ' ', '@', ' '],
        "A:"@ == seq!['A', ':'],
{
    reveal_strlit(" ");
    assert(" "@ =~= seq![' ']);
    reveal_strlit("  ");
    assert("  "@ =~= seq![' ', ' ']);
    reveal_strlit("    ");
    assert("    "@ =~= seq![' ', ' ', ' ', ' ']);
    reveal_strlit("       ");
    assert("       "@ =~= seq![' ', ' ', ' ', ' ', ' ', ' ', ' ']);
    reveal_strlit(" #$");
    assert(" #$"@ =~= seq![' ', '#', '$']);
    reveal_strlit(" $");
    assert(" $"@ =~= seq![' ', '$']);
    reveal_strlit(" ($");
    assert(" ($"@ =~= seq![' ', '(', '$']);
    reveal_strlit(" = ");
    assert(" = "@ =~= seq![' ', '=', ' ']);
    reveal_strlit(" @ ");
    assert(" @ "@ =~= seq![' ', '@', ' ']);
    reveal_strlit(" A");
    assert(" A"@ =~= seq![' ', 'A']);
    reveal_strlit(" CYC:");
    assert(" CYC:"@ =~= seq![' ', 'C', 'Y', 'C', ':']);
    reveal_strlit(" P:");
    assert(" P:"@ =~= seq![' ', 'P', ':']);
    reveal_strlit(" PPU:");
    assert(" PPU:"@ =~= seq![' ', 'P', 'P', 'U', ':']);
    reveal_strlit(" SP:");
    assert(" SP:"@ =~= seq![' ', 'S', 'P', ':']);
    reveal_strlit(" X:");
    assert(" X:"@ =~= seq![' ', 'X', ':']);
    reveal_strlit(" Y:");
    assert(" Y:"@ =~= seq![' ', 'Y', ':']);
    reveal_strlit(") = ");
    assert(") = "@ =~= seq![')', ' ', '=', ' ']);
    reveal_strlit("),Y = ");
    assert("),Y = "@ =~= seq![')', ',', 'Y', ' ', '=', ' ']);
    reveal_strlit(",");
    assert(","@ =~= seq![',']);
    reveal_strlit(",X) @ ");
    assert(",X) @ "@ =~= seq![',', 'X', ')', ' ', '@', ' ']);
    reveal_strlit("A:");
    assert("A:"@ =~= seq!['A', ':']);
}

/// The raw-bytes column for an instruction of `n` bytes.
#[verifier::spinoff_prover]
fn raw_bytes(op: u8, b1: u8, b2: u8, n: u8) -> (r: String)
    ensures
        r@ == raw_text(op, b1, b2, n),
{
    proof {
        lemma_trace_literals();
    }
    let mut s = String::new();
    push_hex2(&mut s, op);
    assert(s@ =~= hex2(op));
    if n == 1 {
        push_str(&mut s, "       ");
    } else if n == 2 {
        push_str(&mut s, " ");
        push_hex2(&mut s, b1);
        push_str(&mut s, "    ");
    } else {
        push_str(&mut s, " ");
        push_hex2(&mut s, b1);
        push_str(&mut s, " ");
        push_hex2(&mut s, b2);
        push_str(&mut s, " ");
    }
    s
}

/// ` PPU:line,dot CYC:n` for a cycle count.
#[verifier::spinoff_prover]
fn timing_column(cycles: u64) -> (r: String)
    requires
        cycles <= u64::MAX / 3,
    ensures
        r@ == timing_text(cycles),
{
    proof {
        lemma_trace_literals();
    }
    let ppu_cycles = cycles * 3;
    let ppu_dot = ppu_cycles % 341;
    let ppu_line = (ppu_cycles / 341) % 262;
    let line_text = dec_string(ppu_line);
    let dot_text = dec_string(ppu_dot);
    let cyc_text = dec_string(cycles);
    let mut s = String::new();
    push_str(&mut s, " PPU:");
    push_padded_left(&mut s, line_text.as_str(), 3);
    push_str(&mut s, ",");
    push_padded_left(&mut s, dot_text.as_str(), 3);
    push_str(&mut s, " CYC:");
    push_str(&mut s, cyc_text.as_str());
    assert(Seq::<char>::empty() + seq![' ', 'P', 'P', 'U', ':'] =~= seq![' ', 'P', 'P', 'U', ':']);
    s
}

/// `,R @ ` for index register `r`.
#[verifier::spinoff_prover]
fn index_separator(r: char) -> (s: String)
    ensures
        s@ == seq![',', r, ' ', '@', ' '],
{
    proof {
        lemma_trace_literals();
    }
    let mut s = String::new();
    push_char(&mut s, ',');
    push_char(&mut s, r);
    push_str(&mut s, " @ ");
    assert(s@ =~= seq![',', r, ' ', '@', ' ']);
    s
}

impl<M: Mapper, I: BusIo> Cpu<M, I> {
    #[verifier::spinoff_prover]
    fn regs_column(&self) -> (r: String)
        ensures
            r@ == regs_text(*self),
    {
        proof {
            lemma_trace_literals();
        }
        let mut s = String::new();
        push_str(&mut s, "A:");
        assert(s@ =~= seq!['A', ':']);
        push_hex2(&mut s, self.a);
        push_str(&mut s, " X:");
        push_hex2(&mut s, self.x);
        push_str(&mut s, " Y:");
        push_hex2(&mut s, self.y);
        push_str(&mut s, " P:");
        push_hex2(&mut s, self.p);
        push_str(&mut s, " SP:");
        push_hex2(&mut s, self.sp);
        s
    }
}

impl<M: Mapper, I: BusIo> Cpu<M, I> {
    /// The trace line for the instruction at PC, read without side effects.
    #[verifier::spinoff_prover]
    pub fn log_state(&mut self) -> (r: String)
        requires
            old(self).bus.wf(),
            old(self).cycles <= u64::MAX / 3,
        ensures
            r@ == log_line(*old(self)),
            *final(self) == *old(self),
    {
        proof {
            lemma_trace_literals();
        }
        let opcode_byte = self.bus.peek(self.pc);
        let instr = decode(opcode_byte);
        let byte_count = instr_byte_count(instr.mode);
        let b1 = if byte_count > 1 {
            self.bus.peek(self.pc.wrapping_add(1))
        } else {
            0
        };
        let b2 = if byte_count > 2 {
            self.bus.peek(self.pc.wrapping_add(2))
        } else {
            0
        };
        assert(b1 == if byte_count > 1 { self.bus.peek_spec(inc16(self.pc)) } else { 0 });
        assert(b2 == if byte_count > 2 {
            self.bus.peek_spec(((self.pc + 2) % 65536) as u16)
        } else {
            0
        });
        let raw = raw_bytes(opcode_byte, b1, b2, byte_count);
        // Unofficial mnemonics start with '*'; official ones get a leading
        // space so that all mnemonics line up.
        let operand = self.format_operand(instr, b1, b2);
        let starred = instr.mnemonic.unicode_len() > 0 && instr.mnemonic.get_char(0) == '*';
        let operand_str = if starred {
            operand
        } else {
            let mut t = String::new();
            push_char(&mut t, ' ');
            push_str(&mut t, operand.as_str());
            assert(t@ =~= seq![' '] + operand@);
            t
        };
        assert(operand_str@ == (if instr.mnemonic@.len() > 0 && instr.mnemonic@[0] == '*' {
            operand_text(*self, instr, b1, b2)
        } else {
            seq![' '] + operand_text(*self, instr, b1, b2)
        }));
        let regs = self.regs_column();
        let timing = timing_column(self.cycles);
        let mut s = String::new();
        push_hex4(&mut s, self.pc);
        assert(s@ =~= hex4(self.pc));
        push_str(&mut s, "  ");
        push_str(&mut s, raw.as_str());
        push_padded_right(&mut s, operand_str.as_str(), 33);
        push_str(&mut s, regs.as_str());
        push_str(&mut s, timing.as_str());
        s
    }
}

impl<M: Mapper, I: BusIo> Cpu<M, I> {
    /// The disassembly column for `instr` with operand bytes `b1`, `b2`.
    #[verifier::spinoff_prover]
    pub fn format_operand(&self, instr: Instruction, b1: u8, b2: u8) -> (r: String)
        requires
            self.bus.wf(),
        ensures
            r@ == operand_text(*self, instr, b1, b2),
    {
        proof {
            lemma_trace_literals();
        }
        let lo = b1 as u16;
        let hi = b2 as u16;
        let abs_addr = (hi << 8) | lo;
        proof {
            crate::nes_cpu::cpu::lemmas::lemma_word(b1, b2);
        }
        let suffix = match instr.mode {
            AddrMode::Implied => String::new(),
            AddrMode::Accumulator | AddrMode::Immediate | AddrMode::Relative => self.fmt_short(
                instr,
                b1,
            ),
            AddrMode::ZeroPage => self.fmt_zero_page(b1),
            AddrMode::ZeroPageX => self.fmt_zero_page_indexed(b1, 'X', self.x),
            AddrMode::ZeroPageY => self.fmt_zero_page_indexed(b1, 'Y', self.y),
            AddrMode::Absolute => self.fmt_absolute(instr, abs_addr),
            AddrMode::AbsoluteX => self.fmt_absolute_indexed(abs_addr, 'X', self.x),
            AddrMode::AbsoluteY => self.fmt_absolute_indexed(abs_addr, 'Y', self.y),
            AddrMode::Indirect => self.fmt_indirect(abs_addr),
            AddrMode::IndirectX => self.fmt_indirect_x(b1),
            AddrMode::IndirectY => self.fmt_indirect_y(b1),
        };
        let mut s = String::new();
        push_str(&mut s, instr.mnemonic);
        push_str(&mut s, suffix.as_str());
        assert(Seq::<char>::empty() + instr.mnemonic@ =~= instr.mnemonic@);
        s
    }

    #[verifier::spinoff_prover]
    fn fmt_short(&self, instr: Instruction, b1: u8) -> (r: String)
        requires
            instr.mode == AddrMode::Accumulator || instr.mode == AddrMode::Immediate || instr.mode
                == AddrMode::Relative,
        ensures
            r@ == operand_suffix(*self, instr, b1, 0),
    {
        proof {
            lemma_trace_literals();
        }
        let mut s = String::new();
        match instr.mode {
            AddrMode::Accumulator => push_str(&mut s, " A"),
            AddrMode::Immediate => {
                push_str(&mut s, " #$");
                push_hex2(&mut s, b1);
            },
            _ => {
                let offset = b1 as i8 as i32;
                let target = (self.pc as i32 + 2 + offset) as u16;
                proof {
                    crate::nes_cpu::cpu::lemmas::lemma_relative_target(self.pc, b1);
                }
                push_str(&mut s, " $");
                push_hex4(&mut s, target);
            },
        }
        s
    }

    #[verifier::spinoff_prover]
    fn fmt_zero_page(&self, b1: u8) -> (r: String)
        requires
            self.bus.wf(),
        ensures
            r@ == zp_text(*self, b1),
    {
        proof {
            lemma_trace_literals();
        }
        let val = self.bus.peek(b1 as u16);
        let mut s = String::new();
        push_str(&mut s, " $");
        push_hex2(&mut s, b1);
        push_str(&mut s, " = ");
        push_hex2(&mut s, val);
        s
    }

    #[verifier::spinoff_prover]
    fn fmt_zero_page_indexed(&self, b1: u8, r: char, index: u8) -> (res: String)
        requires
            self.bus.wf(),
        ensures
            res@ == zp_indexed_text(*self, b1, r, index),
    {
        proof {
            lemma_trace_literals();
        }
        let eff = b1.wrapping_add(index);
        let val = self.bus.peek(eff as u16);
        let mut s = String::new();
        push_str(&mut s, " $");
        push_hex2(&mut s, b1);
        let sep = index_separator(r);
        push_str(&mut s, sep.as_str());
        push_hex2(&mut s, eff);
        push_str(&mut s, " = ");
        push_hex2(&mut s, val);
        s
    }

    #[verifier::spinoff_prover]
    fn fmt_absolute(&self, instr: Instruction, abs_addr: u16) -> (r: String)
        requires
            self.bus.wf(),
        ensures
            r@ == abs_text(*self, instr, abs_addr),
    {
        proof {
            lemma_trace_literals();
        }
        let mut s = String::new();
        push_str(&mut s, " $");
        push_hex4(&mut s, abs_addr);
        if !(instr.kind == OpKind::Jmp || instr.kind == OpKind::Jsr) {
            let val = self.bus.peek(abs_addr);
            push_str(&mut s, " = ");
            push_hex2(&mut s, val);
        }
        s
    }

    #[verifier::spinoff_prover]
    fn fmt_absolute_indexed(&self, abs_addr: u16, r: char, index: u8) -> (res: String)
        requires
            self.bus.wf(),
        ensures
            res@ == abs_indexed_text(*self, abs_addr, r, index),
    {
        proof {
            lemma_trace_literals();
        }
        let eff = abs_addr.wrapping_add(index as u16);
        assert(eff == ((abs_addr + index) % 65536) as u16);
        let val = self.bus.peek(eff);
        let mut s = String::new();
        push_str(&mut s, " $");
        push_hex4(&mut s, abs_addr);
        let sep = index_separator(r);
        push_str(&mut s, sep.as_str());
        push_hex4(&mut s, eff);
        push_str(&mut s, " = ");
        push_hex2(&mut s, val);
        s
    }

    #[verifier::spinoff_prover]
    fn fmt_indirect(&self, ptr: u16) -> (r: String)
        requires
            self.bus.wf(),
        ensures
            r@ == indirect_text(*self, ptr),
    {
        proof {
            lemma_trace_literals();
        }
        proof {
            crate::nes_cpu::cpu::lemmas::lemma_indirect_hi(ptr);
        }
        let lo2 = self.bus.peek(ptr) as u16;
        let hi2 = self.bus.peek((ptr & 0xFF00) | (ptr.wrapping_add(1) & 0x00FF)) as u16;
        proof {
            crate::nes_cpu::cpu::lemmas::lemma_word(lo2 as u8, hi2 as u8);
        }
        let dest = (hi2 << 8) | lo2;
        let mut s = String::new();
        push_str(&mut s, " ($");
        push_hex4(&mut s, ptr);
        push_str(&mut s, ") = ");
        push_hex4(&mut s, dest);
        s
    }

    #[verifier::spinoff_prover]
    fn fmt_indirect_x(&self, b1: u8) -> (r: String)
        requires
            self.bus.wf(),
        ensures
            r@ == indirect_x_text(*self, b1),
    {
        proof {
            lemma_trace_literals();
        }
        proof {
            crate::nes_cpu::cpu::lemmas::lemma_zp(b1, self.x);
        }
        let ptr = b1.wrapping_add(self.x) as u16;
        let lo2 = self.bus.peek(ptr & 0x00FF) as u16;
        let hi2 = self.bus.peek((ptr.wrapping_add(1)) & 0x00FF) as u16;
        proof {
            crate::nes_cpu::cpu::lemmas::lemma_word(lo2 as u8, hi2 as u8);
        }
        let eff = (hi2 << 8) | lo2;
        let val = self.bus.peek(eff);
        assert(ptr as u8 == ((b1 + self.x) % 256) as u8);
        assert(eff == word(
            self.bus.peek_spec(((b1 + self.x) % 256) as u16),
            self.bus.peek_spec(((((b1 + self.x) % 256) + 1) % 256) as u16),
        ));
        let mut s = String::new();
        push_str(&mut s, " ($");
        push_hex2(&mut s, b1);
        push_str(&mut s, ",X) @ ");
        push_hex2(&mut s, ptr as u8);
        push_str(&mut s, " = ");
        push_hex4(&mut s, eff);
        push_str(&mut s, " = ");
        push_hex2(&mut s, val);
        s
    }
    #[verifier::spinoff_prover]
    fn fmt_indirect_y(&self, b1: u8) -> (r: String)
        requires
            self.bus.wf(),
        ensures
            r@ == indirect_y_text(*self, b1),
    {
        proof {
            lemma_trace_literals();
        }
        proof {
            crate::nes_cpu::cpu::lemmas::lemma_zp(b1, 0);
        }
        let ptr = b1 as u16;
        let lo2 = self.bus.peek(ptr & 0x00FF) as u16;
        let hi2 = self.bus.peek((ptr.wrapping_add(1)) & 0x00FF) as u16;
        proof {
            crate::nes_cpu::cpu::lemmas::lemma_word(lo2 as u8, hi2 as u8);
        }
        let base = (hi2 << 8) | lo2;
        let eff = base.wrapping_add(self.y as u16);
        let val = self.bus.peek(eff);
        assert(base == word(
            self.bus.peek_spec(b1 as u16),
            self.bus.peek_spec(((b1 + 1) % 256) as u16),
        ));
        assert(eff == ((base + self.y) % 65536) as u16);
        let mut s = String::new();
        push_str(&mut s, " ($");
        push_hex2(&mut s, b1);
        push_str(&mut s, "),Y = ");
        push_hex4(&mut s, base);
        push_str(&mut s, " @ ");
        push_hex4(&mut s, eff);
        push_str(&mut s, " = ");
        push_hex2(&mut s, val);
        s
    }
}

} // verus!
