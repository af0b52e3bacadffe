//! The 6502 opcode table: addressing modes, operation kinds and base cycle costs.
use vstd::prelude::*;

verus! {

/// Operand addressing modes.
#[derive(Clone, Copy, Debug, PartialEq, Eq, Structural)]
pub enum AddrMode {
    Implied,
    Accumulator,
    Immediate,
    ZeroPage,
    ZeroPageX,
    ZeroPageY,
    Absolute,
    AbsoluteX,
    AbsoluteY,
    Indirect,
    IndirectX,
    IndirectY,
    Relative,
}

/// Operations, official and unofficial.
#[derive(Clone, Copy, Debug, PartialEq, Eq, Structural)]
pub enum OpKind {
    // Load/Store
    Lda, Ldx, Ldy, Sta, Stx, Sty,
    // Register transfers
    Tax, Tay, Txa, Tya, Tsx, Txs,
    // Stack
    Pha, Php, Pla, Plp,
    // Arithmetic
    Adc, Sbc,
    // Increment/Decrement
    Inc, Inx, Iny, Dec, Dex, Dey,
    // Logical
    And, Ora, Eor,
    // Shift/Rotate
    Asl, Lsr, Rol, Ror,
    // Comparison
    Cmp, Cpx, Cpy,
    // Bit test
    Bit,
    // Branch
    Bcc, Bcs, Beq, Bmi, Bne, Bpl, Bvc, Bvs,
    // Jump/Call
    Jmp, Jsr, Rts, Rti,
    // Flags
    Clc, Cld, Cli, Clv, Sec, Sed, Sei,
    // No-op
    Nop,
    // Unofficial combined ops
    Lax, Sax, Dcp, Isc, Slo, Rla, Sre, Rra,
    // Unofficial NOP (reads operand, discards)
    UnopNop,
    // Unofficial ALR: AND + LSR
    Alr,
    // Unofficial ANC: AND + carry from bit 7
    Anc,
    // Unofficial ARR: AND + ROR
    Arr,
    // Unofficial XAA (unstable)
    Xaa,
    // Unofficial AXS (SBX): (A AND X) - imm -> X
    Axs,
    // Unofficial SHY (SYA)
    Shy,
    // Unofficial SHX (SXA)
    Shx,
    // Unofficial TAS
    Tas,
    // Unofficial AHX (SHA)
    Ahx,
    // Unofficial LAS
    Las,
    // BRK (software interrupt through the IRQ vector)
    Brk,
    // KIL / JAM
    Kil,
}

/// One decoded opcode.
#[derive(Clone, Copy, Debug)]
pub struct Instruction {
    pub kind: OpKind,
    pub mnemonic: &'static str,
    pub mode: AddrMode,
    pub cycles: u8,
    pub page_cross_penalty: bool,
}

/// The opcode table. Bytes without an entry decode to a 2-cycle halt (KIL).
pub open spec fn opcode(b: u8) -> Instruction {
    match b {
        0x00 => Instruction { kind: OpKind::Brk, mnemonic: "BRK", mode: AddrMode::Implied, cycles: 7, page_cross_penalty: false },
        0x01 => Instruction { kind: OpKind::Ora, mnemonic: "ORA", mode: AddrMode::IndirectX, cycles: 6, page_cross_penalty: false },
        0x03 => Instruction { kind: OpKind::Slo, mnemonic: "*SLO", mode: AddrMode::IndirectX, cycles: 8, page_cross_penalty: false },
        0x04 => Instruction { kind: OpKind::UnopNop, mnemonic: "*NOP", mode: AddrMode::ZeroPage, cycles: 3, page_cross_penalty: false },
        0x05 => Instruction { kind: OpKind::Ora, mnemonic: "ORA", mode: AddrMode::ZeroPage, cycles: 3, page_cross_penalty: false },
        0x06 => Instruction { kind: OpKind::Asl, mnemonic: "ASL", mode: AddrMode::ZeroPage, cycles: 5, page_cross_penalty: false },
        0x07 => Instruction { kind: OpKind::Slo, mnemonic: "*SLO", mode: AddrMode::ZeroPage, cycles: 5, page_cross_penalty: false },
        0x08 => Instruction { kind: OpKind::Php, mnemonic: "PHP", mode: AddrMode::Implied, cycles: 3, page_cross_penalty: false },
        0x09 => Instruction { kind: OpKind::Ora, mnemonic: "ORA", mode: AddrMode::Immediate, cycles: 2, page_cross_penalty: false },
        0x0A => Instruction { kind: OpKind::Asl, mnemonic: "ASL", mode: AddrMode::Accumulator, cycles: 2, page_cross_penalty: false },
        0x0B => Instruction { kind: OpKind::Anc, mnemonic: "*ANC", mode: AddrMode::Immediate, cycles: 2, page_cross_penalty: false },
        0x0C => Instruction { kind: OpKind::UnopNop, mnemonic: "*NOP", mode: AddrMode::Absolute, cycles: 4, page_cross_penalty: false },
        0x0D => Instruction { kind: OpKind::Ora, mnemonic: "ORA", mode: AddrMode::Absolute, cycles: 4, page_cross_penalty: false },
        0x0E => Instruction { kind: OpKind::Asl, mnemonic: "ASL", mode: AddrMode::Absolute, cycles: 6, page_cross_penalty: false },
        0x0F => Instruction { kind: OpKind::Slo, mnemonic: "*SLO", mode: AddrMode::Absolute, cycles: 6, page_cross_penalty: false },
        0x10 => Instruction { kind: OpKind::Bpl, mnemonic: "BPL", mode: AddrMode::Relative, cycles: 2, page_cross_penalty: false },
        0x11 => Instruction { kind: OpKind::Ora, mnemonic: "ORA", mode: AddrMode::IndirectY, cycles: 5, page_cross_penalty: true },
        0x13 => Instruction { kind: OpKind::Slo, mnemonic: "*SLO", mode: AddrMode::IndirectY, cycles: 8, page_cross_penalty: false },
        0x14 => Instruction { kind: OpKind::UnopNop, mnemonic: "*NOP", mode: AddrMode::ZeroPageX, cycles: 4, page_cross_penalty: false },
        0x15 => Instruction { kind: OpKind::Ora, mnemonic: "ORA", mode: AddrMode::ZeroPageX, cycles: 4, page_cross_penalty: false },
        0x16 => Instruction { kind: OpKind::Asl, mnemonic: "ASL", mode: AddrMode::ZeroPageX, cycles: 6, page_cross_penalty: false },
        0x17 => Instruction { kind: OpKind::Slo, mnemonic: "*SLO", mode: AddrMode::ZeroPageX, cycles: 6, page_cross_penalty: false },
        0x18 => Instruction { kind: OpKind::Clc, mnemonic: "CLC", mode: AddrMode::Implied, cycles: 2, page_cross_penalty: false },
        0x19 => Instruction { kind: OpKind::Ora, mnemonic: "ORA", mode: AddrMode::AbsoluteY, cycles: 4, page_cross_penalty: true },
        0x1A => Instruction { kind: OpKind::UnopNop, mnemonic: "*NOP", mode: AddrMode::Implied, cycles: 2, page_cross_penalty: false },
        0x1B => Instruction { kind: OpKind::Slo, mnemonic: "*SLO", mode: AddrMode::AbsoluteY, cycles: 7, page_cross_penalty: false },
        0x1C => Instruction { kind: OpKind::UnopNop, mnemonic: "*NOP", mode: AddrMode::AbsoluteX, cycles: 4, page_cross_penalty: true },
        0x1D => Instruction { kind: OpKind::Ora, mnemonic: "ORA", mode: AddrMode::AbsoluteX, cycles: 4, page_cross_penalty: true },
        0x1E => Instruction { kind: OpKind::Asl, mnemonic: "ASL", mode: AddrMode::AbsoluteX, cycles: 7, page_cross_penalty: false },
        0x1F => Instruction { kind: OpKind::Slo, mnemonic: "*SLO", mode: AddrMode::AbsoluteX, cycles: 7, page_cross_penalty: false },
        0x20 => Instruction { kind: OpKind::Jsr, mnemonic: "JSR", mode: AddrMode::Absolute, cycles: 6, page_cross_penalty: false },
        0x21 => Instruction { kind: OpKind::And, mnemonic: "AND", mode: AddrMode::IndirectX, cycles: 6, page_cross_penalty: false },
        0x23 => Instruction { kind: OpKind::Rla, mnemonic: "*RLA", mode: AddrMode::IndirectX, cycles: 8, page_cross_penalty: false },
        0x24 => Instruction { kind: OpKind::Bit, mnemonic: "BIT", mode: AddrMode::ZeroPage, cycles: 3, page_cross_penalty: false },
        0x25 => Instruction { kind: OpKind::And, mnemonic: "AND", mode: AddrMode::ZeroPage, cycles: 3, page_cross_penalty: false },
        0x26 => Instruction { kind: OpKind::Rol, mnemonic: "ROL", mode: AddrMode::ZeroPage, cycles: 5, page_cross_penalty: false },
        0x27 => Instruction { kind: OpKind::Rla, mnemonic: "*RLA", mode: AddrMode::ZeroPage, cycles: 5, page_cross_penalty: false },
        0x28 => Instruction { kind: OpKind::Plp, mnemonic: "PLP", mode: AddrMode::Implied, cycles: 4, page_cross_penalty: false },
        0x29 => Instruction { kind: OpKind::And, mnemonic: "AND", mode: AddrMode::Immediate, cycles: 2, page_cross_penalty: false },
        0x2A => Instruction { kind: OpKind::Rol, mnemonic: "ROL", mode: AddrMode::Accumulator, cycles: 2, page_cross_penalty: false },
        0x2B => Instruction { kind: OpKind::Anc, mnemonic: "*ANC", mode: AddrMode::Immediate, cycles: 2, page_cross_penalty: false },
        0x2C => Instruction { kind: OpKind::Bit, mnemonic: "BIT", mode: AddrMode::Absolute, cycles: 4, page_cross_penalty: false },
        0x2D => Instruction { kind: OpKind::And, mnemonic: "AND", mode: AddrMode::Absolute, cycles: 4, page_cross_penalty: false },
        0x2E => Instruction { kind: OpKind::Rol, mnemonic: "ROL", mode: AddrMode::Absolute, cycles: 6, page_cross_penalty: false },
        0x2F => Instruction { kind: OpKind::Rla, mnemonic: "*RLA", mode: AddrMode::Absolute, cycles: 6, page_cross_penalty: false },
        0x30 => Instruction { kind: OpKind::Bmi, mnemonic: "BMI", mode: AddrMode::Relative, cycles: 2, page_cross_penalty: false },
        0x31 => Instruction { kind: OpKind::And, mnemonic: "AND", mode: AddrMode::IndirectY, cycles: 5, page_cross_penalty: true },
        0x33 => Instruction { kind: OpKind::Rla, mnemonic: "*RLA", mode: AddrMode::IndirectY, cycles: 8, page_cross_penalty: false },
        0x34 => Instruction { kind: OpKind::UnopNop, mnemonic: "*NOP", mode: AddrMode::ZeroPageX, cycles: 4, page_cross_penalty: false },
        0x35 => Instruction { kind: OpKind::And, mnemonic: "AND", mode: AddrMode::ZeroPageX, cycles: 4, page_cross_penalty: false },
        0x36 => Instruction { kind: OpKind::Rol, mnemonic: "ROL", mode: AddrMode::ZeroPageX, cycles: 6, page_cross_penalty: false },
        0x37 => Instruction { kind: OpKind::Rla, mnemonic: "*RLA", mode: AddrMode::ZeroPageX, cycles: 6, page_cross_penalty: false },
        0x38 => Instruction { kind: OpKind::Sec, mnemonic: "SEC", mode: AddrMode::Implied, cycles: 2, page_cross_penalty: false },
        0x39 => Instruction { kind: OpKind::And, mnemonic: "AND", mode: AddrMode::AbsoluteY, cycles: 4, page_cross_penalty: true },
        0x3A => Instruction { kind: OpKind::UnopNop, mnemonic: "*NOP", mode: AddrMode::Implied, cycles: 2, page_cross_penalty: false },
        0x3B => Instruction { kind: OpKind::Rla, mnemonic: "*RLA", mode: AddrMode::AbsoluteY, cycles: 7, page_cross_penalty: false },
        0x3C => Instruction { kind: OpKind::UnopNop, mnemonic: "*NOP", mode: AddrMode::AbsoluteX, cycles: 4, page_cross_penalty: true },
        0x3D => Instruction { kind: OpKind::And, mnemonic: "AND", mode: AddrMode::AbsoluteX, cycles: 4, page_cross_penalty: true },
        0x3E => Instruction { kind: OpKind::Rol, mnemonic: "ROL", mode: AddrMode::AbsoluteX, cycles: 7, page_cross_penalty: false },
        0x3F => Instruction { kind: OpKind::Rla, mnemonic: "*RLA", mode: AddrMode::AbsoluteX, cycles: 7, page_cross_penalty: false },
        0x40 => Instruction { kind: OpKind::Rti, mnemonic: "RTI", mode: AddrMode::Implied, cycles: 6, page_cross_penalty: false },
        0x41 => Instruction { kind: OpKind::Eor, mnemonic: "EOR", mode: AddrMode::IndirectX, cycles: 6, page_cross_penalty: false },
        0x43 => Instruction { kind: OpKind::Sre, mnemonic: "*SRE", mode: AddrMode::IndirectX, cycles: 8, page_cross_penalty: false },
        0x44 => Instruction { kind: OpKind::UnopNop, mnemonic: "*NOP", mode: AddrMode::ZeroPage, cycles: 3, page_cross_penalty: false },
        0x45 => Instruction { kind: OpKind::Eor, mnemonic: "EOR", mode: AddrMode::ZeroPage, cycles: 3, page_cross_penalty: false },
        0x46 => Instruction { kind: OpKind::Lsr, mnemonic: "LSR", mode: AddrMode::ZeroPage, cycles: 5, page_cross_penalty: false },
        0x47 => Instruction { kind: OpKind::Sre, mnemonic: "*SRE", mode: AddrMode::ZeroPage, cycles: 5, page_cross_penalty: false },
        0x48 => Instruction { kind: OpKind::Pha, mnemonic: "PHA", mode: AddrMode::Implied, cycles: 3, page_cross_penalty: false },
        0x49 => Instruction { kind: OpKind::Eor, mnemonic: "EOR", mode: AddrMode::Immediate, cycles: 2, page_cross_penalty: false },
        0x4A => Instruction { kind: OpKind::Lsr, mnemonic: "LSR", mode: AddrMode::Accumulator, cycles: 2, page_cross_penalty: false },
        0x4B => Instruction { kind: OpKind::Alr, mnemonic: "*ALR", mode: AddrMode::Immediate, cycles: 2, page_cross_penalty: false },
        0x4C => Instruction { kind: OpKind::Jmp, mnemonic: "JMP", mode: AddrMode::Absolute, cycles: 3, page_cross_penalty: false },
        0x4D => Instruction { kind: OpKind::Eor, mnemonic: "EOR", mode: AddrMode::Absolute, cycles: 4, page_cross_penalty: false },
        0x4E => Instruction { kind: OpKind::Lsr, mnemonic: "LSR", mode: AddrMode::Absolute, cycles: 6, page_cross_penalty: false },
        0x4F => Instruction { kind: OpKind::Sre, mnemonic: "*SRE", mode: AddrMode::Absolute, cycles: 6, page_cross_penalty: false },
        0x50 => Instruction { kind: OpKind::Bvc, mnemonic: "BVC", mode: AddrMode::Relative, cycles: 2, page_cross_penalty: false },
        0x51 => Instruction { kind: OpKind::Eor, mnemonic: "EOR", mode: AddrMode::IndirectY, cycles: 5, page_cross_penalty: true },
        0x53 => Instruction { kind: OpKind::Sre, mnemonic: "*SRE", mode: AddrMode::IndirectY, cycles: 8, page_cross_penalty: false },
        0x54 => Instruction { kind: OpKind::UnopNop, mnemonic: "*NOP", mode: AddrMode::ZeroPageX, cycles: 4, page_cross_penalty: false },
        0x55 => Instruction { kind: OpKind::Eor, mnemonic: "EOR", mode: AddrMode::ZeroPageX, cycles: 4, page_cross_penalty: false },
        0x56 => Instruction { kind: OpKind::Lsr, mnemonic: "LSR", mode: AddrMode::ZeroPageX, cycles: 6, page_cross_penalty: false },
        0x57 => Instruction { kind: OpKind::Sre, mnemonic: "*SRE", mode: AddrMode::ZeroPageX, cycles: 6, page_cross_penalty: false },
        0x58 => Instruction { kind: OpKind::Cli, mnemonic: "CLI", mode: AddrMode::Implied, cycles: 2, page_cross_penalty: false },
        0x59 => Instruction { kind: OpKind::Eor, mnemonic: "EOR", mode: AddrMode::AbsoluteY, cycles: 4, page_cross_penalty: true },
        0x5A => Instruction { kind: OpKind::UnopNop, mnemonic: "*NOP", mode: AddrMode::Implied, cycles: 2, page_cross_penalty: false },
        0x5B => Instruction { kind: OpKind::Sre, mnemonic: "*SRE", mode: AddrMode::AbsoluteY, cycles: 7, page_cross_penalty: false },
        0x5C => Instruction { kind: OpKind::UnopNop, mnemonic: "*NOP", mode: AddrMode::AbsoluteX, cycles: 4, page_cross_penalty: true },
        0x5D => Instruction { kind: OpKind::Eor, mnemonic: "EOR", mode: AddrMode::AbsoluteX, cycles: 4, page_cross_penalty: true },
        0x5E => Instruction { kind: OpKind::Lsr, mnemonic: "LSR", mode: AddrMode::AbsoluteX, cycles: 7, page_cross_penalty: false },
        0x5F => Instruction { kind: OpKind::Sre, mnemonic: "*SRE", mode: AddrMode::AbsoluteX, cycles: 7, page_cross_penalty: false },
        0x60 => Instruction { kind: OpKind::Rts, mnemonic: "RTS", mode: AddrMode::Implied, cycles: 6, page_cross_penalty: false },
        0x61 => Instruction { kind: OpKind::Adc, mnemonic: "ADC", mode: AddrMode::IndirectX, cycles: 6, page_cross_penalty: false },
        0x63 => Instruction { kind: OpKind::Rra, mnemonic: "*RRA", mode: AddrMode::IndirectX, cycles: 8, page_cross_penalty: false },
        0x64 => Instruction { kind: OpKind::UnopNop, mnemonic: "*NOP", mode: AddrMode::ZeroPage, cycles: 3, page_cross_penalty: false },
        0x65 => Instruction { kind: OpKind::Adc, mnemonic: "ADC", mode: AddrMode::ZeroPage, cycles: 3, page_cross_penalty: false },
        0x66 => Instruction { kind: OpKind::Ror, mnemonic: "ROR", mode: AddrMode::ZeroPage, cycles: 5, page_cross_penalty: false },
        0x67 => Instruction { kind: OpKind::Rra, mnemonic: "*RRA", mode: AddrMode::ZeroPage, cycles: 5, page_cross_penalty: false },
        0x68 => Instruction { kind: OpKind::Pla, mnemonic: "PLA", mode: AddrMode::Implied, cycles: 4, page_cross_penalty: false },
        0x69 => Instruction { kind: OpKind::Adc, mnemonic: "ADC", mode: AddrMode::Immediate, cycles: 2, page_cross_penalty: false },
        0x6A => Instruction { kind: OpKind::Ror, mnemonic: "ROR", mode: AddrMode::Accumulator, cycles: 2, page_cross_penalty: false },
        0x6B => Instruction { kind: OpKind::Arr, mnemonic: "*ARR", mode: AddrMode::Immediate, cycles: 2, page_cross_penalty: false },
        0x6C => Instruction { kind: OpKind::Jmp, mnemonic: "JMP", mode: AddrMode::Indirect, cycles: 5, page_cross_penalty: false },
        0x6D => Instruction { kind: OpKind::Adc, mnemonic: "ADC", mode: AddrMode::Absolute, cycles: 4, page_cross_penalty: false },
        0x6E => Instruction { kind: OpKind::Ror, mnemonic: "ROR", mode: AddrMode::Absolute, cycles: 6, page_cross_penalty: false },
        0x6F => Instruction { kind: OpKind::Rra, mnemonic: "*RRA", mode: AddrMode::Absolute, cycles: 6, page_cross_penalty: false },
        0x70 => Instruction { kind: OpKind::Bvs, mnemonic: "BVS", mode: AddrMode::Relative, cycles: 2, page_cross_penalty: false },
        0x71 => Instruction { kind: OpKind::Adc, mnemonic: "ADC", mode: AddrMode::IndirectY, cycles: 5, page_cross_penalty: true },
        0x73 => Instruction { kind: OpKind::Rra, mnemonic: "*RRA", mode: AddrMode::IndirectY, cycles: 8, page_cross_penalty: false },
        0x74 => Instruction { kind: OpKind::UnopNop, mnemonic: "*NOP", mode: AddrMode::ZeroPageX, cycles: 4, page_cross_penalty: false },
        0x75 => Instruction { kind: OpKind::Adc, mnemonic: "ADC", mode: AddrMode::ZeroPageX, cycles: 4, page_cross_penalty: false },
        0x76 => Instruction { kind: OpKind::Ror, mnemonic: "ROR", mode: AddrMode::ZeroPageX, cycles: 6, page_cross_penalty: false },
        0x77 => Instruction { kind: OpKind::Rra, mnemonic: "*RRA", mode: AddrMode::ZeroPageX, cycles: 6, page_cross_penalty: false },
        0x78 => Instruction { kind: OpKind::Sei, mnemonic: "SEI", mode: AddrMode::Implied, cycles: 2, page_cross_penalty: false },
        0x79 => Instruction { kind: OpKind::Adc, mnemonic: "ADC", mode: AddrMode::AbsoluteY, cycles: 4, page_cross_penalty: true },
        0x7A => Instruction { kind: OpKind::UnopNop, mnemonic: "*NOP", mode: AddrMode::Implied, cycles: 2, page_cross_penalty: false },
        0x7B => Instruction { kind: OpKind::Rra, mnemonic: "*RRA", mode: AddrMode::AbsoluteY, cycles: 7, page_cross_penalty: false },
        0x7C => Instruction { kind: OpKind::UnopNop, mnemonic: "*NOP", mode: AddrMode::AbsoluteX, cycles: 4, page_cross_penalty: true },
        0x7D => Instruction { kind: OpKind::Adc, mnemonic: "ADC", mode: AddrMode::AbsoluteX, cycles: 4, page_cross_penalty: true },
        0x7E => Instruction { kind: OpKind::Ror, mnemonic: "ROR", mode: AddrMode::AbsoluteX, cycles: 7, page_cross_penalty: false },
        0x7F => Instruction { kind: OpKind::Rra, mnemonic: "*RRA", mode: AddrMode::AbsoluteX, cycles: 7, page_cross_penalty: false },
        0x80 => Instruction { kind: OpKind::UnopNop, mnemonic: "*NOP", mode: AddrMode::Immediate, cycles: 2, page_cross_penalty: false },
        0x81 => Instruction { kind: OpKind::Sta, mnemonic: "STA", mode: AddrMode::IndirectX, cycles: 6, page_cross_penalty: false },
        0x82 => Instruction { kind: OpKind::UnopNop, mnemonic: "*NOP", mode: AddrMode::Immediate, cycles: 2, page_cross_penalty: false },
        0x83 => Instruction { kind: OpKind::Sax, mnemonic: "*SAX", mode: AddrMode::IndirectX, cycles: 6, page_cross_penalty: false },
        0x84 => Instruction { kind: OpKind::Sty, mnemonic: "STY", mode: AddrMode::ZeroPage, cycles: 3, page_cross_penalty: false },
        0x85 => Instruction { kind: OpKind::Sta, mnemonic: "STA", mode: AddrMode::ZeroPage, cycles: 3, page_cross_penalty: false },
        0x86 => Instruction { kind: OpKind::Stx, mnemonic: "STX", mode: AddrMode::ZeroPage, cycles: 3, page_cross_penalty: false },
        0x87 => Instruction { kind: OpKind::Sax, mnemonic: "*SAX", mode: AddrMode::ZeroPage, cycles: 3, page_cross_penalty: false },
        0x88 => Instruction { kind: OpKind::Dey, mnemonic: "DEY", mode: AddrMode::Implied, cycles: 2, page_cross_penalty: false },
        0x89 => Instruction { kind: OpKind::UnopNop, mnemonic: "*NOP", mode: AddrMode::Immediate, cycles: 2, page_cross_penalty: false },
        0x8A => Instruction { kind: OpKind::Txa, mnemonic: "TXA", mode: AddrMode::Implied, cycles: 2, page_cross_penalty: false },
        0x8B => Instruction { kind: OpKind::Xaa, mnemonic: "*XAA", mode: AddrMode::Immediate, cycles: 2, page_cross_penalty: false },
        0x8C => Instruction { kind: OpKind::Sty, mnemonic: "STY", mode: AddrMode::Absolute, cycles: 4, page_cross_penalty: false },
        0x8D => Instruction { kind: OpKind::Sta, mnemonic: "STA", mode: AddrMode::Absolute, cycles: 4, page_cross_penalty: false },
        0x8E => Instruction { kind: OpKind::Stx, mnemonic: "STX", mode: AddrMode::Absolute, cycles: 4, page_cross_penalty: false },
        0x8F => Instruction { kind: OpKind::Sax, mnemonic: "*SAX", mode: AddrMode::Absolute, cycles: 4, page_cross_penalty: false },
        0x90 => Instruction { kind: OpKind::Bcc, mnemonic: "BCC", mode: AddrMode::Relative, cycles: 2, page_cross_penalty: false },
        0x91 => Instruction { kind: OpKind::Sta, mnemonic: "STA", mode: AddrMode::IndirectY, cycles: 6, page_cross_penalty: false },
        0x93 => Instruction { kind: OpKind::Ahx, mnemonic: "*AHX", mode: AddrMode::IndirectY, cycles: 6, page_cross_penalty: false },
        0x94 => Instruction { kind: OpKind::Sty, mnemonic: "STY", mode: AddrMode::ZeroPageX, cycles: 4, page_cross_penalty: false },
        0x95 => Instruction { kind: OpKind::Sta, mnemonic: "STA", mode: AddrMode::ZeroPageX, cycles: 4, page_cross_penalty: false },
        0x96 => Instruction { kind: OpKind::Stx, mnemonic: "STX", mode: AddrMode::ZeroPageY, cycles: 4, page_cross_penalty: false },
        0x97 => Instruction { kind: OpKind::Sax, mnemonic: "*SAX", mode: AddrMode::ZeroPageY, cycles: 4, page_cross_penalty: false },
        0x98 => Instruction { kind: OpKind::Tya, mnemonic: "TYA", mode: AddrMode::Implied, cycles: 2, page_cross_penalty: false },
        0x99 => Instruction { kind: OpKind::Sta, mnemonic: "STA", mode: AddrMode::AbsoluteY, cycles: 5, page_cross_penalty: false },
        0x9A => Instruction { kind: OpKind::Txs, mnemonic: "TXS", mode: AddrMode::Implied, cycles: 2, page_cross_penalty: false },
        0x9B => Instruction { kind: OpKind::Tas, mnemonic: "*TAS", mode: AddrMode::AbsoluteY, cycles: 5, page_cross_penalty: false },
        0x9C => Instruction { kind: OpKind::Shy, mnemonic: "*SHY", mode: AddrMode::AbsoluteX, cycles: 5, page_cross_penalty: false },
        0x9D => Instruction { kind: OpKind::Sta, mnemonic: "STA", mode: AddrMode::AbsoluteX, cycles: 5, page_cross_penalty: false },
        0x9E => Instruction { kind: OpKind::Shx, mnemonic: "*SHX", mode: AddrMode::AbsoluteY, cycles: 5, page_cross_penalty: false },
        0x9F => Instruction { kind: OpKind::Ahx, mnemonic: "*AHX", mode: AddrMode::AbsoluteY, cycles: 5, page_cross_penalty: false },
        0xA0 => Instruction { kind: OpKind::Ldy, mnemonic: "LDY", mode: AddrMode::Immediate, cycles: 2, page_cross_penalty: false },
        0xA1 => Instruction { kind: OpKind::Lda, mnemonic: "LDA", mode: AddrMode::IndirectX, cycles: 6, page_cross_penalty: false },
        0xA2 => Instruction { kind: OpKind::Ldx, mnemonic: "LDX", mode: AddrMode::Immediate, cycles: 2, page_cross_penalty: false },
        0xA3 => Instruction { kind: OpKind::Lax, mnemonic: "*LAX", mode: AddrMode::IndirectX, cycles: 6, page_cross_penalty: false },
        0xA4 => Instruction { kind: OpKind::Ldy, mnemonic: "LDY", mode: AddrMode::ZeroPage, cycles: 3, page_cross_penalty: false },
        0xA5 => Instruction { kind: OpKind::Lda, mnemonic: "LDA", mode: AddrMode::ZeroPage, cycles: 3, page_cross_penalty: false },
        0xA6 => Instruction { kind: OpKind::Ldx, mnemonic: "LDX", mode: AddrMode::ZeroPage, cycles: 3, page_cross_penalty: false },
        0xA7 => Instruction { kind: OpKind::Lax, mnemonic: "*LAX", mode: AddrMode::ZeroPage, cycles: 3, page_cross_penalty: false },
        0xA8 => Instruction { kind: OpKind::Tay, mnemonic: "TAY", mode: AddrMode::Implied, cycles: 2, page_cross_penalty: false },
        0xA9 => Instruction { kind: OpKind::Lda, mnemonic: "LDA", mode: AddrMode::Immediate, cycles: 2, page_cross_penalty: false },
        0xAA => Instruction { kind: OpKind::Tax, mnemonic: "TAX", mode: AddrMode::Implied, cycles: 2, page_cross_penalty: false },
        0xAC => Instruction { kind: OpKind::Ldy, mnemonic: "LDY", mode: AddrMode::Absolute, cycles: 4, page_cross_penalty: false },
        0xAD => Instruction { kind: OpKind::Lda, mnemonic: "LDA", mode: AddrMode::Absolute, cycles: 4, page_cross_penalty: false },
        0xAE => Instruction { kind: OpKind::Ldx, mnemonic: "LDX", mode: AddrMode::Absolute, cycles: 4, page_cross_penalty: false },
        0xAF => Instruction { kind: OpKind::Lax, mnemonic: "*LAX", mode: AddrMode::Absolute, cycles: 4, page_cross_penalty: false },
        0xB0 => Instruction { kind: OpKind::Bcs, mnemonic: "BCS", mode: AddrMode::Relative, cycles: 2, page_cross_penalty: false },
        0xB1 => Instruction { kind: OpKind::Lda, mnemonic: "LDA", mode: AddrMode::IndirectY, cycles: 5, page_cross_penalty: true },
        0xB3 => Instruction { kind: OpKind::Lax, mnemonic: "*LAX", mode: AddrMode::IndirectY, cycles: 5, page_cross_penalty: true },
        0xB4 => Instruction { kind: OpKind::Ldy, mnemonic: "LDY", mode: AddrMode::ZeroPageX, cycles: 4, page_cross_penalty: false },
        0xB5 => Instruction { kind: OpKind::Lda, mnemonic: "LDA", mode: AddrMode::ZeroPageX, cycles: 4, page_cross_penalty: false },
        0xB6 => Instruction { kind: OpKind::Ldx, mnemonic: "LDX", mode: AddrMode::ZeroPageY, cycles: 4, page_cross_penalty: false },
        0xB7 => Instruction { kind: OpKind::Lax, mnemonic: "*LAX", mode: AddrMode::ZeroPageY, cycles: 4, page_cross_penalty: false },
        0xB8 => Instruction { kind: OpKind::Clv, mnemonic: "CLV", mode: AddrMode::Implied, cycles: 2, page_cross_penalty: false },
        0xB9 => Instruction { kind: OpKind::Lda, mnemonic: "LDA", mode: AddrMode::AbsoluteY, cycles: 4, page_cross_penalty: true },
        0xBA => Instruction { kind: OpKind::Tsx, mnemonic: "TSX", mode: AddrMode::Implied, cycles: 2, page_cross_penalty: false },
        0xBB => Instruction { kind: OpKind::Las, mnemonic: "*LAS", mode: AddrMode::AbsoluteY, cycles: 4, page_cross_penalty: true },
        0xBC => Instruction { kind: OpKind::Ldy, mnemonic: "LDY", mode: AddrMode::AbsoluteX, cycles: 4, page_cross_penalty: true },
        0xBD => Instruction { kind: OpKind::Lda, mnemonic: "LDA", mode: AddrMode::AbsoluteX, cycles: 4, page_cross_penalty: true },
        0xBE => Instruction { kind: OpKind::Ldx, mnemonic: "LDX", mode: AddrMode::AbsoluteY, cycles: 4, page_cross_penalty: true },
        0xBF => Instruction { kind: OpKind::Lax, mnemonic: "*LAX", mode: AddrMode::AbsoluteY, cycles: 4, page_cross_penalty: true },
        0xC0 => Instruction { kind: OpKind::Cpy, mnemonic: "CPY", mode: AddrMode::Immediate, cycles: 2, page_cross_penalty: false },
        0xC1 => Instruction { kind: OpKind::Cmp, mnemonic: "CMP", mode: AddrMode::IndirectX, cycles: 6, page_cross_penalty: false },
        0xC2 => Instruction { kind: OpKind::UnopNop, mnemonic: "*NOP", mode: AddrMode::Immediate, cycles: 2, page_cross_penalty: false },
        0xC3 => Instruction { kind: OpKind::Dcp, mnemonic: "*DCP", mode: AddrMode::IndirectX, cycles: 8, page_cross_penalty: false },
        0xC4 => Instruction { kind: OpKind::Cpy, mnemonic: "CPY", mode: AddrMode::ZeroPage, cycles: 3, page_cross_penalty: false },
        0xC5 => Instruction { kind: OpKind::Cmp, mnemonic: "CMP", mode: AddrMode::ZeroPage, cycles: 3, page_cross_penalty: false },
        0xC6 => Instruction { kind: OpKind::Dec, mnemonic: "DEC", mode: AddrMode::ZeroPage, cycles: 5, page_cross_penalty: false },
        0xC7 => Instruction { kind: OpKind::Dcp, mnemonic: "*DCP", mode: AddrMode::ZeroPage, cycles: 5, page_cross_penalty: false },
        0xC8 => Instruction { kind: OpKind::Iny, mnemonic: "INY", mode: AddrMode::Implied, cycles: 2, page_cross_penalty: false },
        0xC9 => Instruction { kind: OpKind::Cmp, mnemonic: "CMP", mode: AddrMode::Immediate, cycles: 2, page_cross_penalty: false },
        0xCA => Instruction { kind: OpKind::Dex, mnemonic: "DEX", mode: AddrMode::Implied, cycles: 2, page_cross_penalty: false },
        0xCB => Instruction { kind: OpKind::Axs, mnemonic: "*AXS", mode: AddrMode::Immediate, cycles: 2, page_cross_penalty: false },
        0xCC => Instruction { kind: OpKind::Cpy, mnemonic: "CPY", mode: AddrMode::Absolute, cycles: 4, page_cross_penalty: false },
        0xCD => Instruction { kind: OpKind::Cmp, mnemonic: "CMP", mode: AddrMode::Absolute, cycles: 4, page_cross_penalty: false },
        0xCE => Instruction { kind: OpKind::Dec, mnemonic: "DEC", mode: AddrMode::Absolute, cycles: 6, page_cross_penalty: false },
        0xCF => Instruction { kind: OpKind::Dcp, mnemonic: "*DCP", mode: AddrMode::Absolute, cycles: 6, page_cross_penalty: false },
        0xD0 => Instruction { kind: OpKind::Bne, mnemonic: "BNE", mode: AddrMode::Relative, cycles: 2, page_cross_penalty: false },
        0xD1 => Instruction { kind: OpKind::Cmp, mnemonic: "CMP", mode: AddrMode::IndirectY, cycles: 5, page_cross_penalty: true },
        0xD3 => Instruction { kind: OpKind::Dcp, mnemonic: "*DCP", mode: AddrMode::IndirectY, cycles: 8, page_cross_penalty: false },
        0xD4 => Instruction { kind: OpKind::UnopNop, mnemonic: "*NOP", mode: AddrMode::ZeroPageX, cycles: 4, page_cross_penalty: false },
        0xD5 => Instruction { kind: OpKind::Cmp, mnemonic: "CMP", mode: AddrMode::ZeroPageX, cycles: 4, page_cross_penalty: false },
        0xD6 => Instruction { kind: OpKind::Dec, mnemonic: "DEC", mode: AddrMode::ZeroPageX, cycles: 6, page_cross_penalty: false },
        0xD7 => Instruction { kind: OpKind::Dcp, mnemonic: "*DCP", mode: AddrMode::ZeroPageX, cycles: 6, page_cross_penalty: false },
        0xD8 => Instruction { kind: OpKind::Cld, mnemonic: "CLD", mode: AddrMode::Implied, cycles: 2, page_cross_penalty: false },
        0xD9 => Instruction { kind: OpKind::Cmp, mnemonic: "CMP", mode: AddrMode::AbsoluteY, cycles: 4, page_cross_penalty: true },
        0xDA => Instruction { kind: OpKind::UnopNop, mnemonic: "*NOP", mode: AddrMode::Implied, cycles: 2, page_cross_penalty: false },
        0xDB => Instruction { kind: OpKind::Dcp, mnemonic: "*DCP", mode: AddrMode::AbsoluteY, cycles: 7, page_cross_penalty: false },
        0xDC => Instruction { kind: OpKind::UnopNop, mnemonic: "*NOP", mode: AddrMode::AbsoluteX, cycles: 4, page_cross_penalty: true },
        0xDD => Instruction { kind: OpKind::Cmp, mnemonic: "CMP", mode: AddrMode::AbsoluteX, cycles: 4, page_cross_penalty: true },
        0xDE => Instruction { kind: OpKind::Dec, mnemonic: "DEC", mode: AddrMode::AbsoluteX, cycles: 7, page_cross_penalty: false },
        0xDF => Instruction { kind: OpKind::Dcp, mnemonic: "*DCP", mode: AddrMode::AbsoluteX, cycles: 7, page_cross_penalty: false },
        0xE0 => Instruction { kind: OpKind::Cpx, mnemonic: "CPX", mode: AddrMode::Immediate, cycles: 2, page_cross_penalty: false },
        0xE1 => Instruction { kind: OpKind::Sbc, mnemonic: "SBC", mode: AddrMode::IndirectX, cycles: 6, page_cross_penalty: false },
        0xE2 => Instruction { kind: OpKind::UnopNop, mnemonic: "*NOP", mode: AddrMode::Immediate, cycles: 2, page_cross_penalty: false },
        0xE3 => Instruction { kind: OpKind::Isc, mnemonic: "*ISB", mode: AddrMode::IndirectX, cycles: 8, page_cross_penalty: false },
        0xE4 => Instruction { kind: OpKind::Cpx, mnemonic: "CPX", mode: AddrMode::ZeroPage, cycles: 3, page_cross_penalty: false },
        0xE5 => Instruction { kind: OpKind::Sbc, mnemonic: "SBC", mode: AddrMode::ZeroPage, cycles: 3, page_cross_penalty: false },
        0xE6 => Instruction { kind: OpKind::Inc, mnemonic: "INC", mode: AddrMode::ZeroPage, cycles: 5, page_cross_penalty: false },
        0xE7 => Instruction { kind: OpKind::Isc, mnemonic: "*ISB", mode: AddrMode::ZeroPage, cycles: 5, page_cross_penalty: false },
        0xE8 => Instruction { kind: OpKind::Inx, mnemonic: "INX", mode: AddrMode::Implied, cycles: 2, page_cross_penalty: false },
        0xE9 => Instruction { kind: OpKind::Sbc, mnemonic: "SBC", mode: AddrMode::Immediate, cycles: 2, page_cross_penalty: false },
        0xEA => Instruction { kind: OpKind::Nop, mnemonic: "NOP", mode: AddrMode::Implied, cycles: 2, page_cross_penalty: false },
        0xEB => Instruction { kind: OpKind::Sbc, mnemonic: "*SBC", mode: AddrMode::Immediate, cycles: 2, page_cross_penalty: false },
        0xEC => Instruction { kind: OpKind::Cpx, mnemonic: "CPX", mode: AddrMode::Absolute, cycles: 4, page_cross_penalty: false },
        0xED => Instruction { kind: OpKind::Sbc, mnemonic: "SBC", mode: AddrMode::Absolute, cycles: 4, page_cross_penalty: false },
        0xEE => Instruction { kind: OpKind::Inc, mnemonic: "INC", mode: AddrMode::Absolute, cycles: 6, page_cross_penalty: false },
        0xEF => Instruction { kind: OpKind::Isc, mnemonic: "*ISB", mode: AddrMode::Absolute, cycles: 6, page_cross_penalty: false },
        0xF0 => Instruction { kind: OpKind::Beq, mnemonic: "BEQ", mode: AddrMode::Relative, cycles: 2, page_cross_penalty: false },
        0xF1 => Instruction { kind: OpKind::Sbc, mnemonic: "SBC", mode: AddrMode::IndirectY, cycles: 5, page_cross_penalty: true },
        0xF3 => Instruction { kind: OpKind::Isc, mnemonic: "*ISB", mode: AddrMode::IndirectY, cycles: 8, page_cross_penalty: false },
        0xF4 => Instruction { kind: OpKind::UnopNop, mnemonic: "*NOP", mode: AddrMode::ZeroPageX, cycles: 4, page_cross_penalty: false },
        0xF5 => Instruction { kind: OpKind::Sbc, mnemonic: "SBC", mode: AddrMode::ZeroPageX, cycles: 4, page_cross_penalty: false },
        0xF6 => Instruction { kind: OpKind::Inc, mnemonic: "INC", mode: AddrMode::ZeroPageX, cycles: 6, page_cross_penalty: false },
        0xF7 => Instruction { kind: OpKind::Isc, mnemonic: "*ISB", mode: AddrMode::ZeroPageX, cycles: 6, page_cross_penalty: false },
        0xF8 => Instruction { kind: OpKind::Sed, mnemonic: "SED", mode: AddrMode::Implied, cycles: 2, page_cross_penalty: false },
        0xF9 => Instruction { kind: OpKind::Sbc, mnemonic: "SBC", mode: AddrMode::AbsoluteY, cycles: 4, page_cross_penalty: true },
        0xFA => Instruction { kind: OpKind::UnopNop, mnemonic: "*NOP", mode: AddrMode::Implied, cycles: 2, page_cross_penalty: false },
        0xFB => Instruction { kind: OpKind::Isc, mnemonic: "*ISB", mode: AddrMode::AbsoluteY, cycles: 7, page_cross_penalty: false },
        0xFC => Instruction { kind: OpKind::UnopNop, mnemonic: "*NOP", mode: AddrMode::AbsoluteX, cycles: 4, page_cross_penalty: true },
        0xFD => Instruction { kind: OpKind::Sbc, mnemonic: "SBC", mode: AddrMode::AbsoluteX, cycles: 4, page_cross_penalty: true },
        0xFE => Instruction { kind: OpKind::Inc, mnemonic: "INC", mode: AddrMode::AbsoluteX, cycles: 7, page_cross_penalty: false },
        0xFF => Instruction { kind: OpKind::Isc, mnemonic: "*ISB", mode: AddrMode::AbsoluteX, cycles: 7, page_cross_penalty: false },
        _ => Instruction { kind: OpKind::Kil, mnemonic: "KIL", mode: AddrMode::Implied, cycles: 2, page_cross_penalty: false },
    }
}

/// Every opcode takes two to eight cycles.
pub proof fn lemma_opcode_cycles(b: u8)
    ensures
        2 <= opcode(b).cycles <= 8,
{
}

/// Only the conditional branches use relative addressing.
pub proof fn lemma_relative_is_branch(b: u8)
    ensures
        opcode(b).mode != AddrMode::Relative ==> !(opcode(b).kind == OpKind::Bcc || opcode(b).kind
            == OpKind::Bcs || opcode(b).kind == OpKind::Beq || opcode(b).kind == OpKind::Bmi
            || opcode(b).kind == OpKind::Bne || opcode(b).kind == OpKind::Bpl || opcode(b).kind
            == OpKind::Bvc || opcode(b).kind == OpKind::Bvs),
{
}

/// Decode one opcode byte.
pub fn decode(b: u8) -> (r: Instruction)
    ensures
        r == opcode(b),
{
    match b {
        0x00 => Instruction { kind: OpKind::Brk, mnemonic: "BRK", mode: AddrMode::Implied, cycles: 7, page_cross_penalty: false },
        0x01 => Instruction { kind: OpKind::Ora, mnemonic: "ORA", mode: AddrMode::IndirectX, cycles: 6, page_cross_penalty: false },
        0x03 => Instruction { kind: OpKind::Slo, mnemonic: "*SLO", mode: AddrMode::IndirectX, cycles: 8, page_cross_penalty: false },
        0x04 => Instruction { kind: OpKind::UnopNop, mnemonic: "*NOP", mode: AddrMode::ZeroPage, cycles: 3, page_cross_penalty: false },
        0x05 => Instruction { kind: OpKind::Ora, mnemonic: "ORA", mode: AddrMode::ZeroPage, cycles: 3, page_cross_penalty: false },
        0x06 => Instruction { kind: OpKind::Asl, mnemonic: "ASL", mode: AddrMode::ZeroPage, cycles: 5, page_cross_penalty: false },
        0x07 => Instruction { kind: OpKind::Slo, mnemonic: "*SLO", mode: AddrMode::ZeroPage, cycles: 5, page_cross_penalty: false },
        0x08 => Instruction { kind: OpKind::Php, mnemonic: "PHP", mode: AddrMode::Implied, cycles: 3, page_cross_penalty: false },
        0x09 => Instruction { kind: OpKind::Ora, mnemonic: "ORA", mode: AddrMode::Immediate, cycles: 2, page_cross_penalty: false },
        0x0A => Instruction { kind: OpKind::Asl, mnemonic: "ASL", mode: AddrMode::Accumulator, cycles: 2, page_cross_penalty: false },
        0x0B => Instruction { kind: OpKind::Anc, mnemonic: "*ANC", mode: AddrMode::Immediate, cycles: 2, page_cross_penalty: false },
        0x0C => Instruction { kind: OpKind::UnopNop, mnemonic: "*NOP", mode: AddrMode::Absolute, cycles: 4, page_cross_penalty: false },
        0x0D => Instruction { kind: OpKind::Ora, mnemonic: "ORA", mode: AddrMode::Absolute, cycles: 4, page_cross_penalty: false },
        0x0E => Instruction { kind: OpKind::Asl, mnemonic: "ASL", mode: AddrMode::Absolute, cycles: 6, page_cross_penalty: false },
        0x0F => Instruction { kind: OpKind::Slo, mnemonic: "*SLO", mode: AddrMode::Absolute, cycles: 6, page_cross_penalty: false },
        0x10 => Instruction { kind: OpKind::Bpl, mnemonic: "BPL", mode: AddrMode::Relative, cycles: 2, page_cross_penalty: false },
        0x11 => Instruction { kind: OpKind::Ora, mnemonic: "ORA", mode: AddrMode::IndirectY, cycles: 5, page_cross_penalty: true },
        0x13 => Instruction { kind: OpKind::Slo, mnemonic: "*SLO", mode: AddrMode::IndirectY, cycles: 8, page_cross_penalty: false },
        0x14 => Instruction { kind: OpKind::UnopNop, mnemonic: "*NOP", mode: AddrMode::ZeroPageX, cycles: 4, page_cross_penalty: false },
        0x15 => Instruction { kind: OpKind::Ora, mnemonic: "ORA", mode: AddrMode::ZeroPageX, cycles: 4, page_cross_penalty: false },
        0x16 => Instruction { kind: OpKind::Asl, mnemonic: "ASL", mode: AddrMode::ZeroPageX, cycles: 6, page_cross_penalty: false },
        0x17 => Instruction { kind: OpKind::Slo, mnemonic: "*SLO", mode: AddrMode::ZeroPageX, cycles: 6, page_cross_penalty: false },
        0x18 => Instruction { kind: OpKind::Clc, mnemonic: "CLC", mode: AddrMode::Implied, cycles: 2, page_cross_penalty: false },
        0x19 => Instruction { kind: OpKind::Ora, mnemonic: "ORA", mode: AddrMode::AbsoluteY, cycles: 4, page_cross_penalty: true },
        0x1A => Instruction { kind: OpKind::UnopNop, mnemonic: "*NOP", mode: AddrMode::Implied, cycles: 2, page_cross_penalty: false },
        0x1B => Instruction { kind: OpKind::Slo, mnemonic: "*SLO", mode: AddrMode::AbsoluteY, cycles: 7, page_cross_penalty: false },
        0x1C => Instruction { kind: OpKind::UnopNop, mnemonic: "*NOP", mode: AddrMode::AbsoluteX, cycles: 4, page_cross_penalty: true },
        0x1D => Instruction { kind: OpKind::Ora, mnemonic: "ORA", mode: AddrMode::AbsoluteX, cycles: 4, page_cross_penalty: true },
        0x1E => Instruction { kind: OpKind::Asl, mnemonic: "ASL", mode: AddrMode::AbsoluteX, cycles: 7, page_cross_penalty: false },
        0x1F => Instruction { kind: OpKind::Slo, mnemonic: "*SLO", mode: AddrMode::AbsoluteX, cycles: 7, page_cross_penalty: false },
        0x20 => Instruction { kind: OpKind::Jsr, mnemonic: "JSR", mode: AddrMode::Absolute, cycles: 6, page_cross_penalty: false },
        0x21 => Instruction { kind: OpKind::And, mnemonic: "AND", mode: AddrMode::IndirectX, cycles: 6, page_cross_penalty: false },
        0x23 => Instruction { kind: OpKind::Rla, mnemonic: "*RLA", mode: AddrMode::IndirectX, cycles: 8, page_cross_penalty: false },
        0x24 => Instruction { kind: OpKind::Bit, mnemonic: "BIT", mode: AddrMode::ZeroPage, cycles: 3, page_cross_penalty: false },
        0x25 => Instruction { kind: OpKind::And, mnemonic: "AND", mode: AddrMode::ZeroPage, cycles: 3, page_cross_penalty: false },
        0x26 => Instruction { kind: OpKind::Rol, mnemonic: "ROL", mode: AddrMode::ZeroPage, cycles: 5, page_cross_penalty: false },
        0x27 => Instruction { kind: OpKind::Rla, mnemonic: "*RLA", mode: AddrMode::ZeroPage, cycles: 5, page_cross_penalty: false },
        0x28 => Instruction { kind: OpKind::Plp, mnemonic: "PLP", mode: AddrMode::Implied, cycles: 4, page_cross_penalty: false },
        0x29 => Instruction { kind: OpKind::And, mnemonic: "AND", mode: AddrMode::Immediate, cycles: 2, page_cross_penalty: false },
        0x2A => Instruction { kind: OpKind::Rol, mnemonic: "ROL", mode: AddrMode::Accumulator, cycles: 2, page_cross_penalty: false },
        0x2B => Instruction { kind: OpKind::Anc, mnemonic: "*ANC", mode: AddrMode::Immediate, cycles: 2, page_cross_penalty: false },
        0x2C => Instruction { kind: OpKind::Bit, mnemonic: "BIT", mode: AddrMode::Absolute, cycles: 4, page_cross_penalty: false },
        0x2D => Instruction { kind: OpKind::And, mnemonic: "AND", mode: AddrMode::Absolute, cycles: 4, page_cross_penalty: false },
        0x2E => Instruction { kind: OpKind::Rol, mnemonic: "ROL", mode: AddrMode::Absolute, cycles: 6, page_cross_penalty: false },
        0x2F => Instruction { kind: OpKind::Rla, mnemonic: "*RLA", mode: AddrMode::Absolute, cycles: 6, page_cross_penalty: false },
        0x30 => Instruction { kind: OpKind::Bmi, mnemonic: "BMI", mode: AddrMode::Relative, cycles: 2, page_cross_penalty: false },
        0x31 => Instruction { kind: OpKind::And, mnemonic: "AND", mode: AddrMode::IndirectY, cycles: 5, page_cross_penalty: true },
        0x33 => Instruction { kind: OpKind::Rla, mnemonic: "*RLA", mode: AddrMode::IndirectY, cycles: 8, page_cross_penalty: false },
        0x34 => Instruction { kind: OpKind::UnopNop, mnemonic: "*NOP", mode: AddrMode::ZeroPageX, cycles: 4, page_cross_penalty: false },
        0x35 => Instruction { kind: OpKind::And, mnemonic: "AND", mode: AddrMode::ZeroPageX, cycles: 4, page_cross_penalty: false },
        0x36 => Instruction { kind: OpKind::Rol, mnemonic: "ROL", mode: AddrMode::ZeroPageX, cycles: 6, page_cross_penalty: false },
        0x37 => Instruction { kind: OpKind::Rla, mnemonic: "*RLA", mode: AddrMode::ZeroPageX, cycles: 6, page_cross_penalty: false },
        0x38 => Instruction { kind: OpKind::Sec, mnemonic: "SEC", mode: AddrMode::Implied, cycles: 2, page_cross_penalty: false },
        0x39 => Instruction { kind: OpKind::And, mnemonic: "AND", mode: AddrMode::AbsoluteY, cycles: 4, page_cross_penalty: true },
        0x3A => Instruction { kind: OpKind::UnopNop, mnemonic: "*NOP", mode: AddrMode::Implied, cycles: 2, page_cross_penalty: false },
        0x3B => Instruction { kind: OpKind::Rla, mnemonic: "*RLA", mode: AddrMode::AbsoluteY, cycles: 7, page_cross_penalty: false },
        0x3C => Instruction { kind: OpKind::UnopNop, mnemonic: "*NOP", mode: AddrMode::AbsoluteX, cycles: 4, page_cross_penalty: true },
        0x3D => Instruction { kind: OpKind::And, mnemonic: "AND", mode: AddrMode::AbsoluteX, cycles: 4, page_cross_penalty: true },
        0x3E => Instruction { kind: OpKind::Rol, mnemonic: "ROL", mode: AddrMode::AbsoluteX, cycles: 7, page_cross_penalty: false },
        0x3F => Instruction { kind: OpKind::Rla, mnemonic: "*RLA", mode: AddrMode::AbsoluteX, cycles: 7, page_cross_penalty: false },
        0x40 => Instruction { kind: OpKind::Rti, mnemonic: "RTI", mode: AddrMode::Implied, cycles: 6, page_cross_penalty: false },
        0x41 => Instruction { kind: OpKind::Eor, mnemonic: "EOR", mode: AddrMode::IndirectX, cycles: 6, page_cross_penalty: false },
        0x43 => Instruction { kind: OpKind::Sre, mnemonic: "*SRE", mode: AddrMode::IndirectX, cycles: 8, page_cross_penalty: false },
        0x44 => Instruction { kind: OpKind::UnopNop, mnemonic: "*NOP", mode: AddrMode::ZeroPage, cycles: 3, page_cross_penalty: false },
        0x45 => Instruction { kind: OpKind::Eor, mnemonic: "EOR", mode: AddrMode::ZeroPage, cycles: 3, page_cross_penalty: false },
        0x46 => Instruction { kind: OpKind::Lsr, mnemonic: "LSR", mode: AddrMode::ZeroPage, cycles: 5, page_cross_penalty: false },
        0x47 => Instruction { kind: OpKind::Sre, mnemonic: "*SRE", mode: AddrMode::ZeroPage, cycles: 5, page_cross_penalty: false },
        0x48 => Instruction { kind: OpKind::Pha, mnemonic: "PHA", mode: AddrMode::Implied, cycles: 3, page_cross_penalty: false },
        0x49 => Instruction { kind: OpKind::Eor, mnemonic: "EOR", mode: AddrMode::Immediate, cycles: 2, page_cross_penalty: false },
        0x4A => Instruction { kind: OpKind::Lsr, mnemonic: "LSR", mode: AddrMode::Accumulator, cycles: 2, page_cross_penalty: false },
        0x4B => Instruction { kind: OpKind::Alr, mnemonic: "*ALR", mode: AddrMode::Immediate, cycles: 2, page_cross_penalty: false },
        0x4C => Instruction { kind: OpKind::Jmp, mnemonic: "JMP", mode: AddrMode::Absolute, cycles: 3, page_cross_penalty: false },
        0x4D => Instruction { kind: OpKind::Eor, mnemonic: "EOR", mode: AddrMode::Absolute, cycles: 4, page_cross_penalty: false },
        0x4E => Instruction { kind: OpKind::Lsr, mnemonic: "LSR", mode: AddrMode::Absolute, cycles: 6, page_cross_penalty: false },
        0x4F => Instruction { kind: OpKind::Sre, mnemonic: "*SRE", mode: AddrMode::Absolute, cycles: 6, page_cross_penalty: false },
        0x50 => Instruction { kind: OpKind::Bvc, mnemonic: "BVC", mode: AddrMode::Relative, cycles: 2, page_cross_penalty: false },
        0x51 => Instruction { kind: OpKind::Eor, mnemonic: "EOR", mode: AddrMode::IndirectY, cycles: 5, page_cross_penalty: true },
        0x53 => Instruction { kind: OpKind::Sre, mnemonic: "*SRE", mode: AddrMode::IndirectY, cycles: 8, page_cross_penalty: false },
        0x54 => Instruction { kind: OpKind::UnopNop, mnemonic: "*NOP", mode: AddrMode::ZeroPageX, cycles: 4, page_cross_penalty: false },
        0x55 => Instruction { kind: OpKind::Eor, mnemonic: "EOR", mode: AddrMode::ZeroPageX, cycles: 4, page_cross_penalty: false },
        0x56 => Instruction { kind: OpKind::Lsr, mnemonic: "LSR", mode: AddrMode::ZeroPageX, cycles: 6, page_cross_penalty: false },
        0x57 => Instruction { kind: OpKind::Sre, mnemonic: "*SRE", mode: AddrMode::ZeroPageX, cycles: 6, page_cross_penalty: false },
        0x58 => Instruction { kind: OpKind::Cli, mnemonic: "CLI", mode: AddrMode::Implied, cycles: 2, page_cross_penalty: false },
        0x59 => Instruction { kind: OpKind::Eor, mnemonic: "EOR", mode: AddrMode::AbsoluteY, cycles: 4, page_cross_penalty: true },
        0x5A => Instruction { kind: OpKind::UnopNop, mnemonic: "*NOP", mode: AddrMode::Implied, cycles: 2, page_cross_penalty: false },
        0x5B => Instruction { kind: OpKind::Sre, mnemonic: "*SRE", mode: AddrMode::AbsoluteY, cycles: 7, page_cross_penalty: false },
        0x5C => Instruction { kind: OpKind::UnopNop, mnemonic: "*NOP", mode: AddrMode::AbsoluteX, cycles: 4, page_cross_penalty: true },
        0x5D => Instruction { kind: OpKind::Eor, mnemonic: "EOR", mode: AddrMode::AbsoluteX, cycles: 4, page_cross_penalty: true },
        0x5E => Instruction { kind: OpKind::Lsr, mnemonic: "LSR", mode: AddrMode::AbsoluteX, cycles: 7, page_cross_penalty: false },
        0x5F => Instruction { kind: OpKind::Sre, mnemonic: "*SRE", mode: AddrMode::AbsoluteX, cycles: 7, page_cross_penalty: false },
        0x60 => Instruction { kind: OpKind::Rts, mnemonic: "RTS", mode: AddrMode::Implied, cycles: 6, page_cross_penalty: false },
        0x61 => Instruction { kind: OpKind::Adc, mnemonic: "ADC", mode: AddrMode::IndirectX, cycles: 6, page_cross_penalty: false },
        0x63 => Instruction { kind: OpKind::Rra, mnemonic: "*RRA", mode: AddrMode::IndirectX, cycles: 8, page_cross_penalty: false },
        0x64 => Instruction { kind: OpKind::UnopNop, mnemonic: "*NOP", mode: AddrMode::ZeroPage, cycles: 3, page_cross_penalty: false },
        0x65 => Instruction { kind: OpKind::Adc, mnemonic: "ADC", mode: AddrMode::ZeroPage, cycles: 3, page_cross_penalty: false },
        0x66 => Instruction { kind: OpKind::Ror, mnemonic: "ROR", mode: AddrMode::ZeroPage, cycles: 5, page_cross_penalty: false },
        0x67 => Instruction { kind: OpKind::Rra, mnemonic: "*RRA", mode: AddrMode::ZeroPage, cycles: 5, page_cross_penalty: false },
        0x68 => Instruction { kind: OpKind::Pla, mnemonic: "PLA", mode: AddrMode::Implied, cycles: 4, page_cross_penalty: false },
        0x69 => Instruction { kind: OpKind::Adc, mnemonic: "ADC", mode: AddrMode::Immediate, cycles: 2, page_cross_penalty: false },
        0x6A => Instruction { kind: OpKind::Ror, mnemonic: "ROR", mode: AddrMode::Accumulator, cycles: 2, page_cross_penalty: false },
        0x6B => Instruction { kind: OpKind::Arr, mnemonic: "*ARR", mode: AddrMode::Immediate, cycles: 2, page_cross_penalty: false },
        0x6C => Instruction { kind: OpKind::Jmp, mnemonic: "JMP", mode: AddrMode::Indirect, cycles: 5, page_cross_penalty: false },
        0x6D => Instruction { kind: OpKind::Adc, mnemonic: "ADC", mode: AddrMode::Absolute, cycles: 4, page_cross_penalty: false },
        0x6E => Instruction { kind: OpKind::Ror, mnemonic: "ROR", mode: AddrMode::Absolute, cycles: 6, page_cross_penalty: false },
        0x6F => Instruction { kind: OpKind::Rra, mnemonic: "*RRA", mode: AddrMode::Absolute, cycles: 6, page_cross_penalty: false },
        0x70 => Instruction { kind: OpKind::Bvs, mnemonic: "BVS", mode: AddrMode::Relative, cycles: 2, page_cross_penalty: false },
        0x71 => Instruction { kind: OpKind::Adc, mnemonic: "ADC", mode: AddrMode::IndirectY, cycles: 5, page_cross_penalty: true },
        0x73 => Instruction { kind: OpKind::Rra, mnemonic: "*RRA", mode: AddrMode::IndirectY, cycles: 8, page_cross_penalty: false },
        0x74 => Instruction { kind: OpKind::UnopNop, mnemonic: "*NOP", mode: AddrMode::ZeroPageX, cycles: 4, page_cross_penalty: false },
        0x75 => Instruction { kind: OpKind::Adc, mnemonic: "ADC", mode: AddrMode::ZeroPageX, cycles: 4, page_cross_penalty: false },
        0x76 => Instruction { kind: OpKind::Ror, mnemonic: "ROR", mode: AddrMode::ZeroPageX, cycles: 6, page_cross_penalty: false },
        0x77 => Instruction { kind: OpKind::Rra, mnemonic: "*RRA", mode: AddrMode::ZeroPageX, cycles: 6, page_cross_penalty: false },
        0x78 => Instruction { kind: OpKind::Sei, mnemonic: "SEI", mode: AddrMode::Implied, cycles: 2, page_cross_penalty: false },
        0x79 => Instruction { kind: OpKind::Adc, mnemonic: "ADC", mode: AddrMode::AbsoluteY, cycles: 4, page_cross_penalty: true },
        0x7A => Instruction { kind: OpKind::UnopNop, mnemonic: "*NOP", mode: AddrMode::Implied, cycles: 2, page_cross_penalty: false },
        0x7B => Instruction { kind: OpKind::Rra, mnemonic: "*RRA", mode: AddrMode::AbsoluteY, cycles: 7, page_cross_penalty: false },
        0x7C => Instruction { kind: OpKind::UnopNop, mnemonic: "*NOP", mode: AddrMode::AbsoluteX, cycles: 4, page_cross_penalty: true },
        0x7D => Instruction { kind: OpKind::Adc, mnemonic: "ADC", mode: AddrMode::AbsoluteX, cycles: 4, page_cross_penalty: true },
        0x7E => Instruction { kind: OpKind::Ror, mnemonic: "ROR", mode: AddrMode::AbsoluteX, cycles: 7, page_cross_penalty: false },
        0x7F => Instruction { kind: OpKind::Rra, mnemonic: "*RRA", mode: AddrMode::AbsoluteX, cycles: 7, page_cross_penalty: false },
        0x80 => Instruction { kind: OpKind::UnopNop, mnemonic: "*NOP", mode: AddrMode::Immediate, cycles: 2, page_cross_penalty: false },
        0x81 => Instruction { kind: OpKind::Sta, mnemonic: "STA", mode: AddrMode::IndirectX, cycles: 6, page_cross_penalty: false },
        0x82 => Instruction { kind: OpKind::UnopNop, mnemonic: "*NOP", mode: AddrMode::Immediate, cycles: 2, page_cross_penalty: false },
        0x83 => Instruction { kind: OpKind::Sax, mnemonic: "*SAX", mode: AddrMode::IndirectX, cycles: 6, page_cross_penalty: false },
        0x84 => Instruction { kind: OpKind::Sty, mnemonic: "STY", mode: AddrMode::ZeroPage, cycles: 3, page_cross_penalty: false },
        0x85 => Instruction { kind: OpKind::Sta, mnemonic: "STA", mode: AddrMode::ZeroPage, cycles: 3, page_cross_penalty: false },
        0x86 => Instruction { kind: OpKind::Stx, mnemonic: "STX", mode: AddrMode::ZeroPage, cycles: 3, page_cross_penalty: false },
        0x87 => Instruction { kind: OpKind::Sax, mnemonic: "*SAX", mode: AddrMode::ZeroPage, cycles: 3, page_cross_penalty: false },
        0x88 => Instruction { kind: OpKind::Dey, mnemonic: "DEY", mode: AddrMode::Implied, cycles: 2, page_cross_penalty: false },
        0x89 => Instruction { kind: OpKind::UnopNop, mnemonic: "*NOP", mode: AddrMode::Immediate, cycles: 2, page_cross_penalty: false },
        0x8A => Instruction { kind: OpKind::Txa, mnemonic: "TXA", mode: AddrMode::Implied, cycles: 2, page_cross_penalty: false },
        0x8B => Instruction { kind: OpKind::Xaa, mnemonic: "*XAA", mode: AddrMode::Immediate, cycles: 2, page_cross_penalty: false },
        0x8C => Instruction { kind: OpKind::Sty, mnemonic: "STY", mode: AddrMode::Absolute, cycles: 4, page_cross_penalty: false },
        0x8D => Instruction { kind: OpKind::Sta, mnemonic: "STA", mode: AddrMode::Absolute, cycles: 4, page_cross_penalty: false },
        0x8E => Instruction { kind: OpKind::Stx, mnemonic: "STX", mode: AddrMode::Absolute, cycles: 4, page_cross_penalty: false },
        0x8F => Instruction { kind: OpKind::Sax, mnemonic: "*SAX", mode: AddrMode::Absolute, cycles: 4, page_cross_penalty: false },
        0x90 => Instruction { kind: OpKind::Bcc, mnemonic: "BCC", mode: AddrMode::Relative, cycles: 2, page_cross_penalty: false },
        0x91 => Instruction { kind: OpKind::Sta, mnemonic: "STA", mode: AddrMode::IndirectY, cycles: 6, page_cross_penalty: false },
        0x93 => Instruction { kind: OpKind::Ahx, mnemonic: "*AHX", mode: AddrMode::IndirectY, cycles: 6, page_cross_penalty: false },
        0x94 => Instruction { kind: OpKind::Sty, mnemonic: "STY", mode: AddrMode::ZeroPageX, cycles: 4, page_cross_penalty: false },
        0x95 => Instruction { kind: OpKind::Sta, mnemonic: "STA", mode: AddrMode::ZeroPageX, cycles: 4, page_cross_penalty: false },
        0x96 => Instruction { kind: OpKind::Stx, mnemonic: "STX", mode: AddrMode::ZeroPageY, cycles: 4, page_cross_penalty: false },
        0x97 => Instruction { kind: OpKind::Sax, mnemonic: "*SAX", mode: AddrMode::ZeroPageY, cycles: 4, page_cross_penalty: false },
        0x98 => Instruction { kind: OpKind::Tya, mnemonic: "TYA", mode: AddrMode::Implied, cycles: 2, page_cross_penalty: false },
        0x99 => Instruction { kind: OpKind::Sta, mnemonic: "STA", mode: AddrMode::AbsoluteY, cycles: 5, page_cross_penalty: false },
        0x9A => Instruction { kind: OpKind::Txs, mnemonic: "TXS", mode: AddrMode::Implied, cycles: 2, page_cross_penalty: false },
        0x9B => Instruction { kind: OpKind::Tas, mnemonic: "*TAS", mode: AddrMode::AbsoluteY, cycles: 5, page_cross_penalty: false },
        0x9C => Instruction { kind: OpKind::Shy, mnemonic: "*SHY", mode: AddrMode::AbsoluteX, cycles: 5, page_cross_penalty: false },
        0x9D => Instruction { kind: OpKind::Sta, mnemonic: "STA", mode: AddrMode::AbsoluteX, cycles: 5, page_cross_penalty: false },
        0x9E => Instruction { kind: OpKind::Shx, mnemonic: "*SHX", mode: AddrMode::AbsoluteY, cycles: 5, page_cross_penalty: false },
        0x9F => Instruction { kind: OpKind::Ahx, mnemonic: "*AHX", mode: AddrMode::AbsoluteY, cycles: 5, page_cross_penalty: false },
        0xA0 => Instruction { kind: OpKind::Ldy, mnemonic: "LDY", mode: AddrMode::Immediate, cycles: 2, page_cross_penalty: false },
        0xA1 => Instruction { kind: OpKind::Lda, mnemonic: "LDA", mode: AddrMode::IndirectX, cycles: 6, page_cross_penalty: false },
        0xA2 => Instruction { kind: OpKind::Ldx, mnemonic: "LDX", mode: AddrMode::Immediate, cycles: 2, page_cross_penalty: false },
        0xA3 => Instruction { kind: OpKind::Lax, mnemonic: "*LAX", mode: AddrMode::IndirectX, cycles: 6, page_cross_penalty: false },
        0xA4 => Instruction { kind: OpKind::Ldy, mnemonic: "LDY", mode: AddrMode::ZeroPage, cycles: 3, page_cross_penalty: false },
        0xA5 => Instruction { kind: OpKind::Lda, mnemonic: "LDA", mode: AddrMode::ZeroPage, cycles: 3, page_cross_penalty: false },
        0xA6 => Instruction { kind: OpKind::Ldx, mnemonic: "LDX", mode: AddrMode::ZeroPage, cycles: 3, page_cross_penalty: false },
        0xA7 => Instruction { kind: OpKind::Lax, mnemonic: "*LAX", mode: AddrMode::ZeroPage, cycles: 3, page_cross_penalty: false },
        0xA8 => Instruction { kind: OpKind::Tay, mnemonic: "TAY", mode: AddrMode::Implied, cycles: 2, page_cross_penalty: false },
        0xA9 => Instruction { kind: OpKind::Lda, mnemonic: "LDA", mode: AddrMode::Immediate, cycles: 2, page_cross_penalty: false },
        0xAA => Instruction { kind: OpKind::Tax, mnemonic: "TAX", mode: AddrMode::Implied, cycles: 2, page_cross_penalty: false },
        0xAC => Instruction { kind: OpKind::Ldy, mnemonic: "LDY", mode: AddrMode::Absolute, cycles: 4, page_cross_penalty: false },
        0xAD => Instruction { kind: OpKind::Lda, mnemonic: "LDA", mode: AddrMode::Absolute, cycles: 4, page_cross_penalty: false },
        0xAE => Instruction { kind: OpKind::Ldx, mnemonic: "LDX", mode: AddrMode::Absolute, cycles: 4, page_cross_penalty: false },
        0xAF => Instruction { kind: OpKind::Lax, mnemonic: "*LAX", mode: AddrMode::Absolute, cycles: 4, page_cross_penalty: false },
        0xB0 => Instruction { kind: OpKind::Bcs, mnemonic: "BCS", mode: AddrMode::Relative, cycles: 2, page_cross_penalty: false },
        0xB1 => Instruction { kind: OpKind::Lda, mnemonic: "LDA", mode: AddrMode::IndirectY, cycles: 5, page_cross_penalty: true },
        0xB3 => Instruction { kind: OpKind::Lax, mnemonic: "*LAX", mode: AddrMode::IndirectY, cycles: 5, page_cross_penalty: true },
        0xB4 => Instruction { kind: OpKind::Ldy, mnemonic: "LDY", mode: AddrMode::ZeroPageX, cycles: 4, page_cross_penalty: false },
        0xB5 => Instruction { kind: OpKind::Lda, mnemonic: "LDA", mode: AddrMode::ZeroPageX, cycles: 4, page_cross_penalty: false },
        0xB6 => Instruction { kind: OpKind::Ldx, mnemonic: "LDX", mode: AddrMode::ZeroPageY, cycles: 4, page_cross_penalty: false },
        0xB7 => Instruction { kind: OpKind::Lax, mnemonic: "*LAX", mode: AddrMode::ZeroPageY, cycles: 4, page_cross_penalty: false },
        0xB8 => Instruction { kind: OpKind::Clv, mnemonic: "CLV", mode: AddrMode::Implied, cycles: 2, page_cross_penalty: false },
        0xB9 => Instruction { kind: OpKind::Lda, mnemonic: "LDA", mode: AddrMode::AbsoluteY, cycles: 4, page_cross_penalty: true },
        0xBA => Instruction { kind: OpKind::Tsx, mnemonic: "TSX", mode: AddrMode::Implied, cycles: 2, page_cross_penalty: false },
        0xBB => Instruction { kind: OpKind::Las, mnemonic: "*LAS", mode: AddrMode::AbsoluteY, cycles: 4, page_cross_penalty: true },
        0xBC => Instruction { kind: OpKind::Ldy, mnemonic: "LDY", mode: AddrMode::AbsoluteX, cycles: 4, page_cross_penalty: true },
        0xBD => Instruction { kind: OpKind::Lda, mnemonic: "LDA", mode: AddrMode::AbsoluteX, cycles: 4, page_cross_penalty: true },
        0xBE => Instruction { kind: OpKind::Ldx, mnemonic: "LDX", mode: AddrMode::AbsoluteY, cycles: 4, page_cross_penalty: true },
        0xBF => Instruction { kind: OpKind::Lax, mnemonic: "*LAX", mode: AddrMode::AbsoluteY, cycles: 4, page_cross_penalty: true },
        0xC0 => Instruction { kind: OpKind::Cpy, mnemonic: "CPY", mode: AddrMode::Immediate, cycles: 2, page_cross_penalty: false },
        0xC1 => Instruction { kind: OpKind::Cmp, mnemonic: "CMP", mode: AddrMode::IndirectX, cycles: 6, page_cross_penalty: false },
        0xC2 => Instruction { kind: OpKind::UnopNop, mnemonic: "*NOP", mode: AddrMode::Immediate, cycles: 2, page_cross_penalty: false },
        0xC3 => Instruction { kind: OpKind::Dcp, mnemonic: "*DCP", mode: AddrMode::IndirectX, cycles: 8, page_cross_penalty: false },
        0xC4 => Instruction { kind: OpKind::Cpy, mnemonic: "CPY", mode: AddrMode::ZeroPage, cycles: 3, page_cross_penalty: false },
        0xC5 => Instruction { kind: OpKind::Cmp, mnemonic: "CMP", mode: AddrMode::ZeroPage, cycles: 3, page_cross_penalty: false },
        0xC6 => Instruction { kind: OpKind::Dec, mnemonic: "DEC", mode: AddrMode::ZeroPage, cycles: 5, page_cross_penalty: false },
        0xC7 => Instruction { kind: OpKind::Dcp, mnemonic: "*DCP", mode: AddrMode::ZeroPage, cycles: 5, page_cross_penalty: false },
        0xC8 => Instruction { kind: OpKind::Iny, mnemonic: "INY", mode: AddrMode::Implied, cycles: 2, page_cross_penalty: false },
        0xC9 => Instruction { kind: OpKind::Cmp, mnemonic: "CMP", mode: AddrMode::Immediate, cycles: 2, page_cross_penalty: false },
        0xCA => Instruction { kind: OpKind::Dex, mnemonic: "DEX", mode: AddrMode::Implied, cycles: 2, page_cross_penalty: false },
        0xCB => Instruction { kind: OpKind::Axs, mnemonic: "*AXS", mode: AddrMode::Immediate, cycles: 2, page_cross_penalty: false },
        0xCC => Instruction { kind: OpKind::Cpy, mnemonic: "CPY", mode: AddrMode::Absolute, cycles: 4, page_cross_penalty: false },
        0xCD => Instruction { kind: OpKind::Cmp, mnemonic: "CMP", mode: AddrMode::Absolute, cycles: 4, page_cross_penalty: false },
        0xCE => Instruction { kind: OpKind::Dec, mnemonic: "DEC", mode: AddrMode::Absolute, cycles: 6, page_cross_penalty: false },
        0xCF => Instruction { kind: OpKind::Dcp, mnemonic: "*DCP", mode: AddrMode::Absolute, cycles: 6, page_cross_penalty: false },
        0xD0 => Instruction { kind: OpKind::Bne, mnemonic: "BNE", mode: AddrMode::Relative, cycles: 2, page_cross_penalty: false },
        0xD1 => Instruction { kind: OpKind::Cmp, mnemonic: "CMP", mode: AddrMode::IndirectY, cycles: 5, page_cross_penalty: true },
        0xD3 => Instruction { kind: OpKind::Dcp, mnemonic: "*DCP", mode: AddrMode::IndirectY, cycles: 8, page_cross_penalty: false },
        0xD4 => Instruction { kind: OpKind::UnopNop, mnemonic: "*NOP", mode: AddrMode::ZeroPageX, cycles: 4, page_cross_penalty: false },
        0xD5 => Instruction { kind: OpKind::Cmp, mnemonic: "CMP", mode: AddrMode::ZeroPageX, cycles: 4, page_cross_penalty: false },
        0xD6 => Instruction { kind: OpKind::Dec, mnemonic: "DEC", mode: AddrMode::ZeroPageX, cycles: 6, page_cross_penalty: false },
        0xD7 => Instruction { kind: OpKind::Dcp, mnemonic: "*DCP", mode: AddrMode::ZeroPageX, cycles: 6, page_cross_penalty: false },
        0xD8 => Instruction { kind: OpKind::Cld, mnemonic: "CLD", mode: AddrMode::Implied, cycles: 2, page_cross_penalty: false },
        0xD9 => Instruction { kind: OpKind::Cmp, mnemonic: "CMP", mode: AddrMode::AbsoluteY, cycles: 4, page_cross_penalty: true },
        0xDA => Instruction { kind: OpKind::UnopNop, mnemonic: "*NOP", mode: AddrMode::Implied, cycles: 2, page_cross_penalty: false },
        0xDB => Instruction { kind: OpKind::Dcp, mnemonic: "*DCP", mode: AddrMode::AbsoluteY, cycles: 7, page_cross_penalty: false },
        0xDC => Instruction { kind: OpKind::UnopNop, mnemonic: "*NOP", mode: AddrMode::AbsoluteX, cycles: 4, page_cross_penalty: true },
        0xDD => Instruction { kind: OpKind::Cmp, mnemonic: "CMP", mode: AddrMode::AbsoluteX, cycles: 4, page_cross_penalty: true },
        0xDE => Instruction { kind: OpKind::Dec, mnemonic: "DEC", mode: AddrMode::AbsoluteX, cycles: 7, page_cross_penalty: false },
        0xDF => Instruction { kind: OpKind::Dcp, mnemonic: "*DCP", mode: AddrMode::AbsoluteX, cycles: 7, page_cross_penalty: false },
        0xE0 => Instruction { kind: OpKind::Cpx, mnemonic: "CPX", mode: AddrMode::Immediate, cycles: 2, page_cross_penalty: false },
        0xE1 => Instruction { kind: OpKind::Sbc, mnemonic: "SBC", mode: AddrMode::IndirectX, cycles: 6, page_cross_penalty: false },
        0xE2 => Instruction { kind: OpKind::UnopNop, mnemonic: "*NOP", mode: AddrMode::Immediate, cycles: 2, page_cross_penalty: false },
        0xE3 => Instruction { kind: OpKind::Isc, mnemonic: "*ISB", mode: AddrMode::IndirectX, cycles: 8, page_cross_penalty: false },
        0xE4 => Instruction { kind: OpKind::Cpx, mnemonic: "CPX", mode: AddrMode::ZeroPage, cycles: 3, page_cross_penalty: false },
        0xE5 => Instruction { kind: OpKind::Sbc, mnemonic: "SBC", mode: AddrMode::ZeroPage, cycles: 3, page_cross_penalty: false },
        0xE6 => Instruction { kind: OpKind::Inc, mnemonic: "INC", mode: AddrMode::ZeroPage, cycles: 5, page_cross_penalty: false },
        0xE7 => Instruction { kind: OpKind::Isc, mnemonic: "*ISB", mode: AddrMode::ZeroPage, cycles: 5, page_cross_penalty: false },
        0xE8 => Instruction { kind: OpKind::Inx, mnemonic: "INX", mode: AddrMode::Implied, cycles: 2, page_cross_penalty: false },
        0xE9 => Instruction { kind: OpKind::Sbc, mnemonic: "SBC", mode: AddrMode::Immediate, cycles: 2, page_cross_penalty: false },
        0xEA => Instruction { kind: OpKind::Nop, mnemonic: "NOP", mode: AddrMode::Implied, cycles: 2, page_cross_penalty: false },
        0xEB => Instruction { kind: OpKind::Sbc, mnemonic: "*SBC", mode: AddrMode::Immediate, cycles: 2, page_cross_penalty: false },
        0xEC => Instruction { kind: OpKind::Cpx, mnemonic: "CPX", mode: AddrMode::Absolute, cycles: 4, page_cross_penalty: false },
        0xED => Instruction { kind: OpKind::Sbc, mnemonic: "SBC", mode: AddrMode::Absolute, cycles: 4, page_cross_penalty: false },
        0xEE => Instruction { kind: OpKind::Inc, mnemonic: "INC", mode: AddrMode::Absolute, cycles: 6, page_cross_penalty: false },
        0xEF => Instruction { kind: OpKind::Isc, mnemonic: "*ISB", mode: AddrMode::Absolute, cycles: 6, page_cross_penalty: false },
        0xF0 => Instruction { kind: OpKind::Beq, mnemonic: "BEQ", mode: AddrMode::Relative, cycles: 2, page_cross_penalty: false },
        0xF1 => Instruction { kind: OpKind::Sbc, mnemonic: "SBC", mode: AddrMode::IndirectY, cycles: 5, page_cross_penalty: true },
        0xF3 => Instruction { kind: OpKind::Isc, mnemonic: "*ISB", mode: AddrMode::IndirectY, cycles: 8, page_cross_penalty: false },
        0xF4 => Instruction { kind: OpKind::UnopNop, mnemonic: "*NOP", mode: AddrMode::ZeroPageX, cycles: 4, page_cross_penalty: false },
        0xF5 => Instruction { kind: OpKind::Sbc, mnemonic: "SBC", mode: AddrMode::ZeroPageX, cycles: 4, page_cross_penalty: false },
        0xF6 => Instruction { kind: OpKind::Inc, mnemonic: "INC", mode: AddrMode::ZeroPageX, cycles: 6, page_cross_penalty: false },
        0xF7 => Instruction { kind: OpKind::Isc, mnemonic: "*ISB", mode: AddrMode::ZeroPageX, cycles: 6, page_cross_penalty: false },
        0xF8 => Instruction { kind: OpKind::Sed, mnemonic: "SED", mode: AddrMode::Implied, cycles: 2, page_cross_penalty: false },
        0xF9 => Instruction { kind: OpKind::Sbc, mnemonic: "SBC", mode: AddrMode::AbsoluteY, cycles: 4, page_cross_penalty: true },
        0xFA => Instruction { kind: OpKind::UnopNop, mnemonic: "*NOP", mode: AddrMode::Implied, cycles: 2, page_cross_penalty: false },
        0xFB => Instruction { kind: OpKind::Isc, mnemonic: "*ISB", mode: AddrMode::AbsoluteY, cycles: 7, page_cross_penalty: false },
        0xFC => Instruction { kind: OpKind::UnopNop, mnemonic: "*NOP", mode: AddrMode::AbsoluteX, cycles: 4, page_cross_penalty: true },
        0xFD => Instruction { kind: OpKind::Sbc, mnemonic: "SBC", mode: AddrMode::AbsoluteX, cycles: 4, page_cross_penalty: true },
        0xFE => Instruction { kind: OpKind::Inc, mnemonic: "INC", mode: AddrMode::AbsoluteX, cycles: 7, page_cross_penalty: false },
        0xFF => Instruction { kind: OpKind::Isc, mnemonic: "*ISB", mode: AddrMode::AbsoluteX, cycles: 7, page_cross_penalty: false },
        _ => Instruction { kind: OpKind::Kil, mnemonic: "KIL", mode: AddrMode::Implied, cycles: 2, page_cross_penalty: false },
    }
}

/// The full 256-entry opcode table, indexed by opcode byte.
pub fn get_opcodes() -> (r: Vec<Instruction>)
    ensures
        r@.len() == 256,
        forall|i: int| 0 <= i < 256 ==> #[trigger] r@[i] == opcode(i as u8),
{
    let mut t: Vec<Instruction> = Vec::new();
    let mut i: u16 = 0;
    while i < 256
        invariant
            i <= 256,
            t@.len() == i,
            forall|j: int| 0 <= j < i ==> #[trigger] t@[j] == opcode(j as u8),
        decreases 256 - i,
    {
        t.push(decode(i as u8));
        i = i + 1;
    }
    t
}

/// Bytes occupied by an instruction (opcode plus operands) in each mode.
pub open spec fn byte_count(mode: AddrMode) -> u8 {
    match mode {
        AddrMode::Implied | AddrMode::Accumulator => 1,
        AddrMode::Immediate | AddrMode::ZeroPage | AddrMode::ZeroPageX | AddrMode::ZeroPageY
        | AddrMode::IndirectX | AddrMode::IndirectY | AddrMode::Relative => 2,
        AddrMode::Absolute | AddrMode::AbsoluteX | AddrMode::AbsoluteY | AddrMode::Indirect => 3,
    }
}

/// Returns the number of bytes an instruction occupies (opcode + operands).
pub fn instr_byte_count(mode: AddrMode) -> (r: u8)
    ensures
        r == byte_count(mode),
        1 <= r <= 3,
{
    match mode {
        AddrMode::Implied | AddrMode::Accumulator => 1,
        AddrMode::Immediate | AddrMode::ZeroPage | AddrMode::ZeroPageX | AddrMode::ZeroPageY
        | AddrMode::IndirectX | AddrMode::IndirectY | AddrMode::Relative => 2,
        AddrMode::Absolute | AddrMode::AbsoluteX | AddrMode::AbsoluteY | AddrMode::Indirect => 3,
    }
}

} // verus!
