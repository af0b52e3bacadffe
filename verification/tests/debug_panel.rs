use emu_studio::nes_cpu::bus::Bus;
use emu_studio::nes_cpu::opcodes::AddrMode;
use emu_studio::nes_emu::debug::{
    cycles_line, disassembly, flags, joypad_text, operand, pointers_line, position_line, ppu_registers_line,
    registers_line, render_flags, rom_sizes_line, save_state_path, scroll, scroll_line, sprite_line, stack_text,
    DISASSEMBLY_LINES,
};
use emu_studio::nes_emu::input::joypad_byte;

#[test]
fn disassembles_from_the_program_counter() {
    let mut bus = Bus::new();
    // LDA #$42 ; STA $0200 ; BNE -4 ; NOP
    let program = [0xA9, 0x42, 0x8D, 0x00, 0x02, 0xD0, 0xFC, 0xEA];
    for (i, b) in program.iter().enumerate() {
        bus.write(0x0010 + i as u16, *b);
    }
    let lines = disassembly(&bus, 0x0010, 4);
    assert_eq!(lines[0], "0010 A9 42    LDA #$42");
    assert_eq!(lines[1], "0012 8D 00 02 STA $0200");
    assert_eq!(lines[2], "0015 D0 FC    BNE $0013");
    assert_eq!(lines[3], "0017 EA       NOP ");
    assert_eq!(DISASSEMBLY_LINES, 6);
}

#[test]
fn formats_operands_per_mode() {
    assert_eq!(operand(0x8000, AddrMode::Implied, 1, 2), "");
    assert_eq!(operand(0x8000, AddrMode::ZeroPageX, 0x10, 0), "$10,X");
    assert_eq!(operand(0x8000, AddrMode::AbsoluteY, 0x34, 0x12), "$1234,Y");
    assert_eq!(operand(0x8000, AddrMode::Indirect, 0xFF, 0x02), "($02FF)");
    assert_eq!(operand(0x8000, AddrMode::IndirectX, 0x20, 0), "($20,X)");
    assert_eq!(operand(0x8000, AddrMode::IndirectY, 0x20, 0), "($20),Y");
    assert_eq!(operand(0xFFFE, AddrMode::Relative, 0x05, 0), "$0005");
    assert_eq!(operand(0x0000, AddrMode::Relative, 0x80, 0), "$FF82");
}

#[test]
fn shows_the_top_of_the_stack() {
    let mut bus = Bus::new();
    bus.write(0x01FE, 0xAB);
    bus.write(0x01FF, 0xCD);
    assert_eq!(stack_text(&bus, 0xFD), "AB CD");
    assert_eq!(stack_text(&bus, 0xFF), "");
    assert_eq!(stack_text(&bus, 0x00).split(' ').count(), 8);
}

#[test]
fn lists_flags_and_buttons() {
    let f = flags(0b1000_0011);
    assert_eq!(f, vec![('N', true), ('V', false), ('D', false), ('I', false), ('Z', true), ('C', true), ('B', false)]);
    assert_eq!(joypad_text(0b0001_0001), "A  .  .  .  U  .  .  .");
    assert_eq!(joypad_text(0xFF), "A  B  SEL  STA  U  D  L  R");
}

#[test]
fn decodes_ppu_state() {
    // coarse X 3, coarse Y 2, nametable 1, fine Y 5, fine X 6
    let v: u16 = (5 << 12) | (1 << 10) | (2 << 5) | 3;
    assert_eq!(scroll(v, 6), (3 * 8 + 6, 2 * 8 + 5, 1));
    assert_eq!(render_flags(0x18), "BG:ON   SPR:ON ");
    assert_eq!(render_flags(0x01), "BG:off  SPR:off  GREY");
    let mut oam = vec![0xFFu8; 256];
    oam[0] = 10;
    oam[4] = 239;
    assert_eq!(sprite_line(&oam, 0x20), "Sprites: 2/64  H:16");
    assert_eq!(sprite_line(&oam, 0x00), "Sprites: 2/64  H:8");
    assert_eq!(position_line(5, 120), "Scanline:   5  Dot: 120");
}

#[test]
fn names_the_save_file_after_the_rom() {
    assert_eq!(save_state_path("roms/zelda.nes"), "zelda.sav");
    assert_eq!(save_state_path(""), "unknown.sav");
}

fn none_pressed() -> emu_studio::nes_emu::input::Buttons {
    emu_studio::nes_emu::input::Buttons {
        a: false,
        b: false,
        select: false,
        start: false,
        up: false,
        down: false,
        left: false,
        right: false,
    }
}

#[test]
fn packs_pressed_buttons_into_the_joypad_byte() {
    let mut keys = none_pressed();
    keys.a = true;
    keys.up = true;
    assert_eq!(joypad_byte(keys, None), 0b0001_0001);
    let mut pad = none_pressed();
    pad.right = true;
    pad.start = true;
    assert_eq!(joypad_byte(keys, Some(pad)), 0b1001_1001);
    assert_eq!(joypad_byte(none_pressed(), Some(none_pressed())), 0);
    assert_eq!(joypad_text(joypad_byte(keys, Some(pad))), "A  .  .  STA  U  .  .  R");
}

#[test]
fn formats_register_and_cartridge_lines() {
    assert_eq!(registers_line(0x0A, 0xFF, 0), "A:0A  X:FF  Y:00");
    assert_eq!(pointers_line(0xC000, 0xFD), "PC:C000  SP:FD");
    assert_eq!(cycles_line(7), "Cycles: 7");
    assert_eq!(rom_sizes_line(32768, 8192), "PRG: 32KB  CHR: 8KB");
    assert_eq!(rom_sizes_line(1000, 0), "PRG: 0KB  CHR: 0KB");
    assert_eq!(ppu_registers_line(0x80, 0x1E, 0xA0), "CTRL:80  MASK:1E  STATUS:A0");
    let v: u16 = (5 << 12) | (1 << 10) | (2 << 5) | 3;
    assert_eq!(scroll_line(v, 6), "Scroll: X: 30 Y: 21 NT:1");
}

#[test]
fn save_state_paths_keep_all_but_the_last_extension() {
    assert_eq!(save_state_path("games/Super.Mario.nes"), "Super.Mario.sav");
    assert_eq!(save_state_path("tetris"), "tetris.sav");
}
