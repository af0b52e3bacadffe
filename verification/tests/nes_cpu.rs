use emu_studio::nes_cpu::bus::Bus;
use emu_studio::nes_cpu::cpu::flags;
use emu_studio::nes_cpu::cpu::Cpu;
use emu_studio::nes_cpu::ines::{INesRom, InesError, Mirroring};
use emu_studio::nes_cpu::opcodes::{decode, get_opcodes, instr_byte_count, AddrMode};
use emu_studio::nes_cpu::state::{read_u16, read_u32, read_u64, read_bytes, write_bytes, write_u16, write_u32, write_u64};
use emu_studio::nes_cpu::state::{read_mirroring, write_mirroring};

fn make_bus(prg_rom: Vec<u8>) -> Bus {
    let rom = INesRom {
        prg_rom,
        chr_rom: Vec::new(),
        mapper: 0,
        mirroring: Mirroring::Horizontal,
        has_battery: false,
    };
    Bus::from_rom(rom)
}

fn make_cpu(program: &[u8]) -> Cpu {
    let mut rom = vec![0u8; 0x4000];
    rom[..program.len()].copy_from_slice(program);
    rom[0x3FFC] = 0x00;
    rom[0x3FFD] = 0x80;
    let bus = make_bus(rom);
    let mut cpu = Cpu::new(bus);
    cpu.pc = 0x8000;
    cpu.cycles = 0;
    cpu
}

fn make_ines(prg_banks: u8, chr_banks: u8, flags6: u8, flags7: u8) -> Vec<u8> {
    let mut header = vec![0x4E, 0x45, 0x53, 0x1A];
    header.push(prg_banks);
    header.push(chr_banks);
    header.push(flags6);
    header.push(flags7);
    header.resize(16, 0);
    let prg_len = prg_banks as usize * 16384;
    let chr_len = chr_banks as usize * 8192;
    header.resize(16 + prg_len + chr_len, 0xAA);
    header
}

#[test]
fn test_ram_mirror() {
    let mut bus = make_bus(vec![0u8; 0x4000]);
    bus.write(0x0000, 0xAB);
    assert_eq!(bus.read(0x0000), 0xAB);
    assert_eq!(bus.read(0x0800), 0xAB);
    assert_eq!(bus.read(0x1000), 0xAB);
    assert_eq!(bus.read(0x1800), 0xAB);
}

#[test]
fn test_rom_mirror() {
    let mut rom = vec![0u8; 0x4000];
    rom[0] = 0x4C;
    let mut bus = make_bus(rom);
    assert_eq!(bus.read(0x8000), 0x4C);
    assert_eq!(bus.read(0xC000), 0x4C);
}

#[test]
fn test_prg_ram() {
    let mut bus = make_bus(vec![0u8; 0x4000]);
    bus.write(0x6000, 0x42);
    assert_eq!(bus.read(0x6000), 0x42);
    bus.write(0x7FFF, 0xAB);
    assert_eq!(bus.read(0x7FFF), 0xAB);
}

#[test]
fn test_initial_state() {
    let bus = make_bus(vec![0u8; 0x4000]);
    let cpu = Cpu::new(bus);
    assert_eq!(cpu.pc, 0xC000);
    assert_eq!(cpu.sp, 0xFD);
    assert_eq!(cpu.p, 0x24);
    assert_eq!(cpu.cycles, 7);
}

#[test]
fn test_lda_immediate() {
    let mut cpu = make_cpu(&[0xA9, 0x42]);
    cpu.step();
    assert_eq!(cpu.a, 0x42);
    assert!(!cpu.flag_val(flags::Z));
    assert!(!cpu.flag_val(flags::N));
    assert_eq!(cpu.cycles, 2);
}

#[test]
fn test_lda_zero_sets_z() {
    let mut cpu = make_cpu(&[0xA9, 0x00]);
    cpu.step();
    assert_eq!(cpu.a, 0x00);
    assert!(cpu.flag_val(flags::Z));
    assert!(!cpu.flag_val(flags::N));
}

#[test]
fn test_lda_negative_sets_n() {
    let mut cpu = make_cpu(&[0xA9, 0x80]);
    cpu.step();
    assert!(!cpu.flag_val(flags::Z));
    assert!(cpu.flag_val(flags::N));
}

#[test]
fn test_adc_no_carry_no_overflow() {
    let mut cpu = make_cpu(&[0xA9, 0x10, 0x69, 0x20]);
    cpu.step();
    cpu.step();
    assert_eq!(cpu.a, 0x30);
    assert!(!cpu.flag_val(flags::C));
    assert!(!cpu.flag_val(flags::V));
}

#[test]
fn test_adc_carry_out() {
    let mut cpu = make_cpu(&[0xA9, 0xFF, 0x69, 0x01]);
    cpu.step();
    cpu.step();
    assert_eq!(cpu.a, 0x00);
    assert!(cpu.flag_val(flags::C));
    assert!(cpu.flag_val(flags::Z));
}

#[test]
fn test_adc_overflow() {
    let mut cpu = make_cpu(&[0xA9, 0x50, 0x69, 0x50]);
    cpu.step();
    cpu.step();
    assert_eq!(cpu.a, 0xA0);
    assert!(cpu.flag_val(flags::V));
    assert!(cpu.flag_val(flags::N));
    assert!(!cpu.flag_val(flags::C));
}

#[test]
fn test_sbc_basic() {
    let mut cpu = make_cpu(&[0x38, 0xA9, 0x50, 0xE9, 0x30]);
    cpu.step();
    cpu.step();
    cpu.step();
    assert_eq!(cpu.a, 0x20);
    assert!(cpu.flag_val(flags::C));
    assert!(!cpu.flag_val(flags::V));
}

#[test]
fn test_stack_push_pull() {
    let mut cpu = make_cpu(&[]);
    cpu.sp = 0xFF;
    cpu.push8(0xAB);
    assert_eq!(cpu.sp, 0xFE);
    let val = cpu.pull8();
    assert_eq!(val, 0xAB);
    assert_eq!(cpu.sp, 0xFF);
}

#[test]
fn test_indirect_jmp_page_wrap_bug() {
    let mut cpu = make_cpu(&[0x6C, 0xFF, 0x01]);
    cpu.bus.write(0x01FF, 0x34);
    cpu.bus.write(0x0100, 0x12);
    cpu.step();
    assert_eq!(cpu.pc, 0x1234);
}

#[test]
fn test_zero_page_x_wrap() {
    let mut cpu = make_cpu(&[0xB5, 0xFF]);
    cpu.x = 1;
    cpu.bus.write(0x0000, 0x42);
    cpu.step();
    assert_eq!(cpu.a, 0x42);
}

#[test]
fn test_branch_taken_same_page() {
    let mut cpu = make_cpu(&[0xF0, 0x02]);
    cpu.p |= flags::Z;
    cpu.cycles = 0;
    cpu.step();
    assert_eq!(cpu.pc, 0x8004);
    assert_eq!(cpu.cycles, 3);
}

#[test]
fn test_branch_not_taken() {
    let mut cpu = make_cpu(&[0xF0, 0x02]);
    cpu.p &= !flags::Z;
    cpu.cycles = 0;
    cpu.step();
    assert_eq!(cpu.pc, 0x8002);
    assert_eq!(cpu.cycles, 2);
}

#[test]
fn test_php_plp_b_flag() {
    let mut cpu = make_cpu(&[0x08, 0x68]);
    cpu.p = 0x24;
    cpu.step();
    cpu.pc = 0x8001;
    cpu.step();
    assert_eq!(cpu.a, 0x34);
}

#[test]
fn test_inx_wraps() {
    let mut cpu = make_cpu(&[0xE8]);
    cpu.x = 0xFF;
    cpu.step();
    assert_eq!(cpu.x, 0x00);
    assert!(cpu.flag_val(flags::Z));
}

#[test]
fn test_jsr_rts() {
    let mut cpu = make_cpu(&[0x20, 0x03, 0x80, 0xEA, 0x60]);
    cpu.step();
    assert_eq!(cpu.pc, 0x8003);
    cpu.step();
    cpu.step();
    assert_eq!(cpu.pc, 0x8003);
}

#[test]
fn test_parse_basic() {
    let data = make_ines(1, 0, 0x00, 0x00);
    let rom = INesRom::parse(&data).unwrap();
    assert_eq!(rom.prg_rom.len(), 16384);
    assert!(rom.chr_rom.is_empty());
    assert_eq!(rom.mapper, 0);
    assert_eq!(rom.mirroring, Mirroring::Horizontal);
    assert!(!rom.has_battery);
}

#[test]
fn test_parse_vertical_mirroring() {
    let data = make_ines(1, 1, 0x01, 0x00);
    let rom = INesRom::parse(&data).unwrap();
    assert_eq!(rom.mirroring, Mirroring::Vertical);
    assert_eq!(rom.chr_rom.len(), 8192);
}

#[test]
fn test_parse_four_screen() {
    let data = make_ines(1, 0, 0x08, 0x00);
    let rom = INesRom::parse(&data).unwrap();
    assert_eq!(rom.mirroring, Mirroring::FourScreen);
}

#[test]
fn test_parse_mapper() {
    let data = make_ines(1, 0, 0x40, 0x00);
    let rom = INesRom::parse(&data).unwrap();
    assert_eq!(rom.mapper, 4);
    let data = make_ines(1, 0, 0x20, 0x40);
    let rom = INesRom::parse(&data).unwrap();
    assert_eq!(rom.mapper, 66);
}

#[test]
fn test_parse_battery() {
    let data = make_ines(1, 0, 0x02, 0x00);
    let rom = INesRom::parse(&data).unwrap();
    assert!(rom.has_battery);
}

#[test]
fn test_parse_with_trainer() {
    let mut data = make_ines(1, 0, 0x04, 0x00);
    data.splice(16..16, vec![0xBB; 512]);
    let rom = INesRom::parse(&data).unwrap();
    assert_eq!(rom.prg_rom.len(), 16384);
}

#[test]
fn test_parse_invalid_magic() {
    let data = vec![0x00; 32];
    assert!(INesRom::parse(&data).is_err());
}

#[test]
fn test_parse_truncated() {
    let data = make_ines(2, 0, 0x00, 0x00);
    let truncated = &data[..data.len() - 100];
    assert!(INesRom::parse(truncated).is_err());
}

// ── Further scenarios ──────────────────────────────────────────────────────

#[test]
fn parse_reports_expected_and_actual_length() {
    let data = make_ines(2, 0, 0x00, 0x00);
    let truncated = &data[..data.len() - 100];
    assert_eq!(
        INesRom::parse(truncated).err(),
        Some(InesError::TooShort { expected: 16 + 2 * 16384, actual: 16 + 2 * 16384 - 100 })
    );
    assert_eq!(INesRom::parse(&[0x4E, 0x45, 0x53]).err(), Some(InesError::NotInes));
}

#[test]
fn trace_line_matches_nestest_format() {
    let mut cpu = make_cpu(&[0xA9, 0x42]);
    cpu.cycles = 7;
    let line = cpu.step();
    assert_eq!(
        line,
        "8000  A9 42     LDA #$42                        A:00 X:00 Y:00 P:24 SP:FD PPU:  0, 21 CYC:7"
    );
}

#[test]
fn load_program_places_bytes_at_0600() {
    let mut cpu = make_cpu(&[]);
    cpu.load_program(&[0xA9, 0x07, 0xAA]);
    assert_eq!(cpu.pc, 0x0600);
    assert_eq!(cpu.bus.read(0x0600), 0xA9);
    assert_eq!(cpu.bus.read(0x0601), 0x07);
    assert_eq!(cpu.bus.read(0x0E02), 0xAA);
    cpu.step();
    cpu.step();
    assert_eq!(cpu.x, 0x07);
}

#[test]
fn pha_pla_restores_accumulator() {
    let mut cpu = make_cpu(&[0x48, 0xA9, 0x00, 0x68]);
    cpu.a = 0x5C;
    let sp = cpu.sp;
    cpu.step();
    cpu.step();
    assert_eq!(cpu.a, 0x00);
    cpu.step();
    assert_eq!(cpu.a, 0x5C);
    assert_eq!(cpu.sp, sp);
}

#[test]
fn cmp_sets_carry_when_register_not_below() {
    let mut cpu = make_cpu(&[0xA9, 0x40, 0xC9, 0x40, 0xC9, 0x41]);
    cpu.step();
    cpu.step();
    assert!(cpu.flag_val(flags::C));
    assert!(cpu.flag_val(flags::Z));
    cpu.step();
    assert!(!cpu.flag_val(flags::C));
    assert!(!cpu.flag_val(flags::Z));
    assert!(cpu.flag_val(flags::N));
}

#[test]
fn reset_loads_vector_and_drops_stack() {
    let mut cpu = make_cpu(&[]);
    cpu.sp = 0xFD;
    cpu.reset();
    assert_eq!(cpu.pc, 0x8000);
    assert_eq!(cpu.sp, 0xFA);
    assert!(cpu.flag_val(flags::I));
    assert_eq!(cpu.cycles, 7);
}

#[test]
fn nmi_pushes_return_address_and_status() {
    let mut rom = vec![0u8; 0x4000];
    rom[0x3FFA] = 0x34;
    rom[0x3FFB] = 0x92;
    let mut cpu = Cpu::new(make_bus(rom));
    cpu.pc = 0x8123;
    cpu.sp = 0xFD;
    cpu.p = 0x24;
    cpu.nmi();
    assert_eq!(cpu.pc, 0x9234);
    assert_eq!(cpu.sp, 0xFA);
    assert_eq!(cpu.bus.read(0x01FD), 0x81);
    assert_eq!(cpu.bus.read(0x01FC), 0x23);
    assert_eq!(cpu.bus.read(0x01FB), 0x24 | flags::U);
}

#[test]
fn opcode_table_decodes_official_and_unofficial() {
    let table = get_opcodes();
    assert_eq!(table.len(), 256);
    let lda = decode(0xA9);
    assert_eq!(lda.mnemonic, "LDA");
    assert_eq!(lda.mode, AddrMode::Immediate);
    assert_eq!(lda.cycles, 2);
    let lax = decode(0xA7);
    assert_eq!(lax.mnemonic, "*LAX");
    assert_eq!(instr_byte_count(AddrMode::Absolute), 3);
    assert_eq!(instr_byte_count(AddrMode::Implied), 1);
}

#[test]
fn state_words_round_trip() {
    let mut out = Vec::new();
    write_u16(&mut out, 0xBEEF);
    write_u32(&mut out, 0x1234_5678);
    write_u64(&mut out, 0x0102_0304_0506_0708);
    write_bytes(&mut out, &[9, 8, 7]);
    assert_eq!(&out[..2], &[0xEF, 0xBE]);
    let mut cursor: &[u8] = &out;
    assert_eq!(read_u16(&mut cursor), 0xBEEF);
    assert_eq!(read_u32(&mut cursor), 0x1234_5678);
    assert_eq!(read_u64(&mut cursor), 0x0102_0304_0506_0708);
    assert_eq!(read_bytes(&mut cursor), vec![9, 8, 7]);
    assert!(cursor.is_empty());
}

#[test]
fn compares_only_cpu_columns_of_trace_lines() {
    let ours = "C000  4C F5 C5  JMP $C5F5                       A:00 X:00 Y:00 P:24 SP:FD PPU:  0, 21 CYC:7";
    let reference = "C000  4C F5 C5  JMP $C5F5                       A:00 X:00 Y:00 P:24 SP:FD PPU:  0,  0 CYC:7";
    assert!(emu_studio::nes_cpu::nestest::cpu_columns_match(ours, reference));
    let other = "C000  4C F5 C5  JMP $C5F5                       A:01 X:00 Y:00 P:24 SP:FD PPU:  0,  0 CYC:7";
    assert!(!emu_studio::nes_cpu::nestest::cpu_columns_match(ours, other));
    assert!(emu_studio::nes_cpu::nestest::cpu_columns_match("A:00 X:00", "A:00 X:00"));
    assert!(!emu_studio::nes_cpu::nestest::cpu_columns_match("A:00 X:00", "A:00 X:01"));
}

#[test]
fn mirroring_modes_round_trip() {
    let modes = [
        Mirroring::Horizontal,
        Mirroring::Vertical,
        Mirroring::FourScreen,
        Mirroring::SingleScreenLower,
        Mirroring::SingleScreenUpper,
    ];
    let mut out = Vec::new();
    for m in modes {
        write_mirroring(&mut out, m);
    }
    assert_eq!(out, vec![0, 1, 2, 3, 4]);
    let mut cursor: &[u8] = &out;
    for m in modes {
        assert_eq!(read_mirroring(&mut cursor), m);
    }
    let mut unknown: &[u8] = &[9];
    assert_eq!(read_mirroring(&mut unknown), Mirroring::Horizontal);
}

#[test]
fn brk_pushes_return_and_status_then_jumps_through_irq_vector() {
    let mut rom = vec![0u8; 0x4000];
    rom[0] = 0x00;
    rom[0x3FFE] = 0x34;
    rom[0x3FFF] = 0x92;
    let mut cpu = Cpu::new(make_bus(rom));
    cpu.pc = 0x8000;
    cpu.cycles = 0;
    cpu.p = 0x20;
    assert_eq!(decode(0x00).mnemonic, "BRK");
    cpu.step();
    assert_eq!(cpu.pc, 0x9234);
    assert_eq!(cpu.sp, 0xFA);
    assert_eq!(cpu.bus.read(0x01FD), 0x80);
    assert_eq!(cpu.bus.read(0x01FC), 0x02);
    assert_eq!(cpu.bus.read(0x01FB), 0x30);
    assert!(cpu.flag_val(flags::I));
    assert_eq!(cpu.cycles, 7);
}

#[test]
fn kil_opcodes_halt_on_themselves() {
    let mut cpu = make_cpu(&[0x02]);
    cpu.step();
    assert_eq!(cpu.pc, 0x8000);
    assert_eq!(cpu.cycles, 2);
}

#[test]
fn run_with_callback_stops_when_told() {
    let mut cpu = make_cpu(&[0xEA, 0xEA, 0xEA, 0xEA]);
    cpu.run_with_callback(|c: &Cpu| c.pc != 0x8003);
    assert_eq!(cpu.pc, 0x8003);
    assert_eq!(cpu.cycles, 6);
}

#[test]
fn prg_rom_writes_are_ignored() {
    let mut rom = vec![0u8; 0x4000];
    rom[0] = 0x77;
    let mut bus = make_bus(rom);
    bus.write(0x6000, 0x42);
    bus.write(0x8000, 0x55);
    assert_eq!(bus.read(0x8000), 0x77);
    assert_eq!(bus.read(0xC000), 0x77);
    assert_eq!(bus.read(0x6000), 0x42);
    assert_eq!(bus.read(0x6001), 0x00);
}

#[test]
fn lda_then_adc_sets_carry_without_overflow() {
    let mut cpu = make_cpu(&[0xA9, 0xF0, 0x69, 0x20]);
    cpu.step();
    cpu.step();
    assert_eq!(cpu.a, 0x10);
    assert!(cpu.flag_val(flags::C));
    assert!(!cpu.flag_val(flags::V));
    assert_eq!(cpu.pc, 0x8004);
    assert_eq!(cpu.cycles, 4);
}

#[test]
fn run_with_callback_asks_before_every_step() {
    let calls = std::cell::Cell::new(0u32);
    let mut cpu = make_cpu(&[0xE8, 0xE8, 0xE8, 0xE8, 0xE8]);
    cpu.run_with_callback(|c: &Cpu| {
        calls.set(calls.get() + 1);
        c.x < 3
    });
    assert_eq!(calls.get(), 4);
    assert_eq!(cpu.x, 3);
    assert_eq!(cpu.pc, 0x8003);
    assert_eq!(cpu.cycles, 6);
}
