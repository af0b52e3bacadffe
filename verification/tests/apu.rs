use emu_studio::nes_apu::apu::ApuChannels;
use emu_studio::nes_apu::frame_counter::Mode;
use emu_studio::nes_apu::composite_io::{routes_read_to_apu, routes_write_to_apu};

fn setup_pulse1_with_length(apu: &mut ApuChannels, length_index: u8) {
    apu.write_register(0x4015, 0x01);
    apu.write_register(0x4000, 0x9F);
    apu.write_register(0x4002, 0x80);
    apu.write_register(0x4003, length_index << 3);
}

#[test]
fn test_status_register() {
    let mut apu = ApuChannels::new();
    apu.write_register(0x4015, 0x01);
    apu.write_register(0x4003, 0x08);
    let status = apu.read_register(0x4015);
    assert!(status & 0x01 != 0);
}

#[test]
fn test_register_dispatch() {
    let mut apu = ApuChannels::new();
    apu.write_register(0x4000, 0xBF);
    assert_eq!(apu.pulse1.duty, 2);
    apu.write_register(0x4008, 0xFF);
    assert!(apu.triangle.control_flag);
    apu.write_register(0x400C, 0x3F);
    assert!(apu.noise.length_counter.halt);
    apu.write_register(0x4017, 0x80);
    assert_eq!(apu.frame_counter.mode, Mode::FiveStep);
}

#[test]
fn test_len_ctr_load_and_status() {
    let mut apu = ApuChannels::new();
    setup_pulse1_with_length(&mut apu, 0x01);
    let status = apu.read_register(0x4015);
    assert!(status & 0x01 != 0, "pulse 1 should be active after length load");
}

#[test]
fn test_len_ctr_expires_over_time() {
    let mut apu = ApuChannels::new();
    apu.write_register(0x4017, 0x40);
    setup_pulse1_with_length(&mut apu, 0x03);
    for _ in 0..29840 {
        apu.tick();
    }
    let status = apu.read_register(0x4015);
    assert_eq!(status & 0x01, 0, "pulse 1 should have expired after 2 half-frames");
}

#[test]
fn test_len_ctr_five_step_immediate_clock() {
    let mut apu = ApuChannels::new();
    setup_pulse1_with_length(&mut apu, 0x03);
    apu.write_register(0x4017, 0x80);
    assert_eq!(apu.pulse1.length_counter.counter, 1);
}

#[test]
fn test_len_ctr_four_step_no_immediate_clock() {
    let mut apu = ApuChannels::new();
    setup_pulse1_with_length(&mut apu, 0x03);
    apu.write_register(0x4017, 0x00);
    assert_eq!(apu.pulse1.length_counter.counter, 2, "should not have clocked");
}

#[test]
fn test_len_ctr_disable_clears() {
    let mut apu = ApuChannels::new();
    setup_pulse1_with_length(&mut apu, 0x01);
    assert!(apu.pulse1.length_counter.is_active());
    apu.write_register(0x4015, 0x00);
    assert!(!apu.pulse1.length_counter.is_active());
    assert_eq!(apu.pulse1.length_counter.counter, 0);
    apu.write_register(0x4015, 0x01);
    assert_eq!(apu.pulse1.length_counter.counter, 0);
}

#[test]
fn test_len_ctr_disabled_prevents_reload() {
    let mut apu = ApuChannels::new();
    apu.write_register(0x4000, 0xBF);
    apu.write_register(0x4002, 0x80);
    apu.write_register(0x4003, 0x08);
    assert_eq!(apu.pulse1.length_counter.counter, 0, "length should not load when channel is disabled");
}

#[test]
fn test_len_ctr_halt_suspends_clock() {
    let mut apu = ApuChannels::new();
    apu.write_register(0x4015, 0x01);
    apu.write_register(0x4000, 0xBF | 0x20);
    apu.write_register(0x4002, 0x80);
    apu.write_register(0x4003, 0x18);
    let initial = apu.pulse1.length_counter.counter;
    assert!(initial > 0);
    apu.write_register(0x4017, 0x80);
    assert_eq!(apu.pulse1.length_counter.counter, initial);
}

#[test]
fn test_len_table_all_entries() {
    let expected: [u8; 32] = [
        10, 254, 20, 2, 40, 4, 80, 6, 160, 8, 60, 10, 14, 12, 26, 14, 12, 16, 24, 18, 48, 20, 96,
        22, 192, 24, 72, 26, 16, 28, 32, 30,
    ];
    let mut apu = ApuChannels::new();
    apu.write_register(0x4015, 0x01);
    apu.write_register(0x4000, 0xBF);
    apu.write_register(0x4002, 0x80);
    for (i, &exp) in expected.iter().enumerate() {
        apu.write_register(0x4003, (i as u8) << 3);
        assert_eq!(apu.pulse1.length_counter.counter, exp, "length table index {} should be {}", i, exp);
    }
}

#[test]
fn test_irq_flag_not_set_in_mode_40() {
    let mut apu = ApuChannels::new();
    apu.write_register(0x4017, 0x40);
    for _ in 0..29840 {
        apu.tick();
    }
    let status = apu.read_register(0x4015);
    assert_eq!(status & 0x40, 0, "IRQ flag should not be set with inhibit");
}

#[test]
fn test_irq_flag_not_set_in_mode_80() {
    let mut apu = ApuChannels::new();
    apu.write_register(0x4017, 0x80);
    for _ in 0..37300 {
        apu.tick();
    }
    let status = apu.read_register(0x4015);
    assert_eq!(status & 0x40, 0, "IRQ flag should not be set in 5-step mode");
}

#[test]
fn test_irq_flag_set_in_mode_00() {
    let mut apu = ApuChannels::new();
    apu.write_register(0x4017, 0x00);
    for _ in 0..29840 {
        apu.tick();
    }
    let status = apu.read_register(0x4015);
    assert!(status & 0x40 != 0, "IRQ flag should be set in 4-step mode");
}

#[test]
fn test_irq_flag_cleared_by_read() {
    let mut apu = ApuChannels::new();
    apu.write_register(0x4017, 0x00);
    for _ in 0..29840 {
        apu.tick();
    }
    let status1 = apu.read_register(0x4015);
    assert!(status1 & 0x40 != 0, "flag should be set first");
    let status2 = apu.read_register(0x4015);
    assert_eq!(status2 & 0x40, 0, "flag should be cleared after read");
}

#[test]
fn test_irq_flag_write_00_80_no_effect() {
    let mut apu = ApuChannels::new();
    apu.frame_counter.irq_flag = true;
    apu.write_register(0x4017, 0x00);
    assert!(apu.frame_counter.irq_flag, "$00 should not clear IRQ flag");
    apu.write_register(0x4017, 0x80);
    assert!(apu.frame_counter.irq_flag, "$80 should not clear IRQ flag");
}

#[test]
fn test_irq_flag_write_40_c0_clears() {
    let mut apu = ApuChannels::new();
    apu.frame_counter.irq_flag = true;
    apu.write_register(0x4017, 0x40);
    assert!(!apu.frame_counter.irq_flag, "$40 should clear IRQ flag");
    apu.frame_counter.irq_flag = true;
    apu.write_register(0x4017, 0xC0);
    assert!(!apu.frame_counter.irq_flag, "$C0 should clear IRQ flag");
}

#[test]
fn test_dmc_enable_disable_status() {
    let mut apu = ApuChannels::new();
    apu.write_register(0x4012, 0x00);
    apu.write_register(0x4013, 0x01);
    apu.write_register(0x4015, 0x10);
    let status = apu.read_register(0x4015);
    assert!(status & 0x10 != 0, "DMC should show active in $4015");
    apu.write_register(0x4015, 0x00);
    let status = apu.read_register(0x4015);
    assert_eq!(status & 0x10, 0, "DMC should show inactive after disable");
}

#[test]
fn test_dmc_irq_flag_cleared_on_4015_write() {
    let mut apu = ApuChannels::new();
    apu.dmc.irq_flag = true;
    assert!(apu.irq_pending());
    apu.write_register(0x4015, 0x00);
    assert!(!apu.dmc.irq_flag);
}

#[test]
fn test_dmc_direct_load() {
    let mut apu = ApuChannels::new();
    apu.write_register(0x4011, 0x55);
    assert_eq!(apu.dmc.output(), 0x55);
}

#[test]
fn test_dmc_irq_disabled_clears_flag() {
    let mut apu = ApuChannels::new();
    apu.dmc.irq_flag = true;
    apu.write_register(0x4010, 0x00);
    assert!(!apu.dmc.irq_flag);
}

#[test]
fn test_dmc_restart_on_enable() {
    let mut apu = ApuChannels::new();
    apu.write_register(0x4012, 0x02);
    apu.write_register(0x4013, 0x01);
    apu.write_register(0x4015, 0x10);
    assert_eq!(apu.dmc.bytes_remaining(), 17);
}

#[test]
fn test_dmc_no_restart_when_already_playing() {
    let mut apu = ApuChannels::new();
    apu.write_register(0x4012, 0x00);
    apu.write_register(0x4013, 0x02);
    apu.write_register(0x4015, 0x10);
    assert_eq!(apu.dmc.bytes_remaining(), 33);
    apu.dmc.load_sample(0xFF);
    let remaining_after = apu.dmc.bytes_remaining();
    assert!(remaining_after < 33);
    apu.write_register(0x4015, 0x10);
    assert_eq!(apu.dmc.bytes_remaining(), remaining_after);
}

#[test]
fn test_dmc_rate_table() {
    let expected: [u16; 16] = [428, 380, 340, 320, 286, 254, 226, 214, 190, 160, 142, 128, 106, 84, 72, 54];
    let mut apu = ApuChannels::new();
    for (i, &exp) in expected.iter().enumerate() {
        apu.write_register(0x4010, i as u8);
        assert_eq!(apu.dmc.timer_period, exp, "DMC rate index {} should be {}", i, exp);
    }
}

#[test]
fn test_all_channels_length_counter_status() {
    let mut apu = ApuChannels::new();
    apu.write_register(0x4015, 0x0F);
    apu.write_register(0x4003, 0x08);
    apu.write_register(0x4007, 0x08);
    apu.write_register(0x400B, 0x08);
    apu.write_register(0x400F, 0x08);
    let status = apu.read_register(0x4015);
    assert_eq!(status & 0x0F, 0x0F, "all 4 channels should be active");
    apu.write_register(0x4015, 0x00);
    let status = apu.read_register(0x4015);
    assert_eq!(status & 0x0F, 0x00, "all 4 channels should be inactive");
}

#[test]
fn test_five_step_clocks_all_channels() {
    let mut apu = ApuChannels::new();
    apu.write_register(0x4015, 0x0F);
    apu.write_register(0x4003, 0x18);
    apu.write_register(0x4007, 0x18);
    apu.write_register(0x400B, 0x18);
    apu.write_register(0x400F, 0x18);
    apu.write_register(0x4017, 0x80);
    assert_eq!(apu.pulse1.length_counter.counter, 1);
    assert_eq!(apu.pulse2.length_counter.counter, 1);
    assert_eq!(apu.triangle.length_counter.counter, 1);
    assert_eq!(apu.noise.length_counter.counter, 1);
}

#[test]
fn apu_dmc_fetch_round_trip() {
    let mut apu = ApuChannels::new();
    apu.write_register(0x4012, 0x00);
    apu.write_register(0x4013, 0x00);
    apu.write_register(0x4015, 0x10);
    apu.tick();
    assert_eq!(apu.dmc_sample_request(), Some(0xC000));
    assert_eq!(apu.dmc_sample_request(), None);
    apu.dmc_load_sample(0xAA);
    assert_eq!(apu.dmc.bytes_remaining(), 0);
    let (p1, p2, tri, noise, dmc) = apu.outputs();
    assert_eq!((p1, p2, noise), (0, 0, 0));
    assert_eq!(tri, 15);
    assert_eq!(dmc, 0);
    assert_eq!(apu.read_register(0x4000), 0);
}

#[test]
fn routes_apu_registers_to_the_apu() {
    assert!(routes_read_to_apu(0x4015));
    assert!(!routes_read_to_apu(0x4016));
    assert!(!routes_read_to_apu(0x4017));
    assert!(routes_write_to_apu(0x4000));
    assert!(routes_write_to_apu(0x4013));
    assert!(!routes_write_to_apu(0x4014));
    assert!(routes_write_to_apu(0x4015));
    assert!(!routes_write_to_apu(0x4016));
    assert!(routes_write_to_apu(0x4017));
    assert!(!routes_write_to_apu(0x2000));
}
