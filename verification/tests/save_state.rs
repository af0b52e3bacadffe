use emu_studio::nes_emu::save_state::{load, load_reads_within, save, CpuRegisters, SaveError, SaveState};

fn sample_state() -> SaveState {
    let mut ram = vec![0u8; 2048];
    ram[0] = 0xAA;
    ram[2047] = 0x55;
    SaveState {
        cpu: CpuRegisters { a: 1, x: 2, y: 3, pc: 0xC000, sp: 0xFD, p: 0x24, cycles: 7 },
        ram,
        mapper: Some(vec![9, 8, 7]),
        ppu: vec![1; 10],
        apu: vec![2; 3],
        joypad1: vec![],
        joypad2: vec![4],
        cpu_cycles: 123_456,
        ppu_cycles: 370_368,
    }
}

#[test]
fn saves_header_and_registers_first() {
    let bytes = save(&sample_state());
    assert_eq!(&bytes[..5], b"NESS\x01");
    assert_eq!(&bytes[5..12], &[1, 2, 3, 0x00, 0xC0, 0xFD, 0x24]);
    assert_eq!(&bytes[12..20], &7u64.to_le_bytes());
    assert_eq!(&bytes[20..24], &2048u32.to_le_bytes());
    let expected_len = 20 + (4 + 2048) + (4 + 3) + (4 + 10) + (4 + 3) + 4 + (4 + 1) + 16;
    assert_eq!(bytes.len(), expected_len);
}

#[test]
fn loads_what_was_saved() {
    let state = sample_state();
    let bytes = save(&state);
    assert!(load_reads_within(&bytes));
    let back = load(&bytes).expect("save state should load");
    assert_eq!(back.cpu, state.cpu);
    assert_eq!(back.ram, state.ram);
    assert_eq!(back.mapper, state.mapper);
    assert_eq!(back.ppu, state.ppu);
    assert_eq!(back.apu, state.apu);
    assert_eq!(back.joypad1, state.joypad1);
    assert_eq!(back.joypad2, state.joypad2);
    assert_eq!(back.cpu_cycles, 123_456);
    assert_eq!(back.ppu_cycles, 370_368);
}

#[test]
fn refuses_bad_headers() {
    assert_eq!(load(b"NES").unwrap_err(), SaveError::TooSmall);
    assert_eq!(load(b"NESX\x01").unwrap_err(), SaveError::InvalidMagic);
    assert_eq!(load(b"NESS\x02").unwrap_err(), SaveError::UnsupportedVersion { version: 2 });
    assert_eq!(SaveError::TooSmall.message(), "Save state too small");
    assert_eq!(SaveError::InvalidMagic.message(), "Invalid save state magic");
    assert_eq!(SaveError::UnsupportedVersion { version: 2 }.message(), "Unsupported save state version: 2");
}

#[test]
fn refuses_a_ram_of_the_wrong_size() {
    let mut state = sample_state();
    state.ram = vec![0; 16];
    let bytes = save(&state);
    assert!(load_reads_within(&bytes));
    let err = load(&bytes).unwrap_err();
    assert_eq!(err, SaveError::InvalidRamSize { size: 16 });
    assert_eq!(err.message(), "Invalid RAM size: 16");
}

#[test]
fn detects_truncated_states() {
    let bytes = save(&sample_state());
    assert!(!load_reads_within(&bytes[..bytes.len() - 1]));
    assert!(!load_reads_within(&bytes[..30]));
    assert!(load_reads_within(b"NESS\x02"));
}
