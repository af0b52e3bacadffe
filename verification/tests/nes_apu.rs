use emu_studio::nes_apu::dmc::Dmc;
use emu_studio::nes_apu::envelope::Envelope;
use emu_studio::nes_apu::frame_counter::{FrameCounter, Mode};
use emu_studio::nes_apu::length_counter::{length_table_entry, LengthCounter};
use emu_studio::nes_apu::noise::Noise;
use emu_studio::nes_apu::pulse::Pulse;
use emu_studio::nes_apu::sweep::{NegateMode, Sweep};
use emu_studio::nes_apu::triangle::{triangle_sequence, Triangle};

#[test]
fn test_direct_load() {
    let mut d = Dmc::new();
    d.write_reg(1, 0x40);
    assert_eq!(d.output_level, 0x40);
}

#[test]
fn test_sample_address() {
    let mut d = Dmc::new();
    d.write_reg(2, 0x00);
    assert_eq!(d.sample_address, 0xC000);
    d.write_reg(2, 0x01);
    assert_eq!(d.sample_address, 0xC040);
}

#[test]
fn test_sample_length() {
    let mut d = Dmc::new();
    d.write_reg(3, 0x00);
    assert_eq!(d.sample_length, 1);
    d.write_reg(3, 0x01);
    assert_eq!(d.sample_length, 17);
}

#[test]
fn test_constant_volume() {
    let mut env = Envelope::new();
    env.write(0x1A);
    assert_eq!(env.volume(), 0x0A);
}

#[test]
fn test_decay() {
    let mut env = Envelope::new();
    env.write(0x05);
    env.start = true;
    env.clock();
    assert_eq!(env.volume(), 15);
    for _ in 0..6 {
        env.clock();
    }
    assert_eq!(env.volume(), 14);
}

#[test]
fn test_loop() {
    let mut env = Envelope::new();
    env.write(0x20);
    env.start = true;
    env.clock();
    for _ in 0..15 {
        env.clock();
    }
    assert_eq!(env.volume(), 0);
    env.clock();
    assert_eq!(env.volume(), 15);
}

#[test]
fn test_four_step_sequence() {
    let mut fc = FrameCounter::new();
    fc.mode = Mode::FourStep;
    fc.irq_inhibit = false;
    let mut events = Vec::new();
    for _ in 0..14916 {
        if let Some(e) = fc.tick() {
            events.push(e);
        }
    }
    assert_eq!(events.len(), 5);
    assert!(events[0].quarter_frame && !events[0].half_frame && !events[0].irq);
    assert!(events[1].quarter_frame && events[1].half_frame && !events[1].irq);
    assert!(events[2].quarter_frame && !events[2].half_frame && !events[2].irq);
    assert!(!events[3].quarter_frame && !events[3].half_frame && events[3].irq);
    assert!(events[4].quarter_frame && events[4].half_frame && events[4].irq);
    assert!(fc.irq_flag);
}

#[test]
fn test_four_step_irq_spans_three_cycles() {
    let mut fc = FrameCounter::new();
    fc.mode = Mode::FourStep;
    fc.irq_inhibit = false;
    for _ in 0..14914 {
        fc.tick();
    }
    assert!(fc.irq_flag);
    fc.irq_flag = false;
    fc.tick();
    assert!(fc.irq_flag);
    fc.irq_flag = false;
    fc.tick();
    assert!(fc.irq_flag);
}

#[test]
fn test_irq_inhibit() {
    let mut fc = FrameCounter::new();
    fc.mode = Mode::FourStep;
    fc.irq_inhibit = true;
    for _ in 0..14916 {
        if let Some(e) = fc.tick() {
            assert!(!e.irq);
        }
    }
    assert!(!fc.irq_flag);
}

#[test]
fn test_five_step_no_irq() {
    let mut fc = FrameCounter::new();
    let event = fc.write(0x80);
    assert!(event.is_some());
    let e = event.unwrap();
    assert!(e.quarter_frame && e.half_frame && !e.irq);
    for _ in 0..18642 {
        if let Some(e) = fc.tick() {
            assert!(!e.irq);
        }
    }
    assert!(!fc.irq_flag);
}

#[test]
fn test_five_step_sequence() {
    let mut fc = FrameCounter::new();
    fc.mode = Mode::FiveStep;
    let mut events = Vec::new();
    for _ in 0..18642 {
        if let Some(e) = fc.tick() {
            events.push(e);
        }
    }
    assert_eq!(events.len(), 4);
    assert!(events[0].quarter_frame && !events[0].half_frame);
    assert!(events[1].quarter_frame && events[1].half_frame);
    assert!(events[2].quarter_frame && !events[2].half_frame);
    assert!(events[3].quarter_frame && events[3].half_frame);
}

#[test]
fn test_write_clears_irq_with_inhibit() {
    let mut fc = FrameCounter::new();
    fc.irq_flag = true;
    fc.write(0x40);
    assert!(!fc.irq_flag);
}

#[test]
fn test_write_preserves_irq_without_inhibit() {
    let mut fc = FrameCounter::new();
    fc.irq_flag = true;
    fc.write(0x00);
    assert!(fc.irq_flag);
    fc.irq_flag = true;
    fc.write(0x80);
    assert!(fc.irq_flag);
}

#[test]
fn test_load_from_table() {
    let mut lc = LengthCounter::new();
    lc.enable();
    lc.load(0);
    assert_eq!(lc.counter, 10);
    lc.load(1);
    assert_eq!(lc.counter, 254);
}

#[test]
fn test_clock_decrements() {
    let mut lc = LengthCounter::new();
    lc.enable();
    lc.load(0);
    lc.clock();
    assert_eq!(lc.counter, 9);
}

#[test]
fn test_halt_prevents_clock() {
    let mut lc = LengthCounter::new();
    lc.enable();
    lc.load(0);
    lc.halt = true;
    lc.clock();
    assert_eq!(lc.counter, 10);
}

#[test]
fn test_disable_clears_counter() {
    let mut lc = LengthCounter::new();
    lc.enable();
    lc.load(0);
    assert!(lc.is_active());
    lc.disable();
    assert!(!lc.is_active());
    assert_eq!(lc.counter, 0);
}

#[test]
fn test_initial_shift_register() {
    let n = Noise::new();
    assert_eq!(n.shift_register, 1);
}

#[test]
fn test_shift_register_changes() {
    let mut n = Noise::new();
    let initial = n.shift_register;
    n.clock_shift_register();
    assert_ne!(n.shift_register, initial);
}

#[test]
fn test_muted_when_disabled() {
    let n = Noise::new();
    assert_eq!(n.output(), 0);
}

#[test]
fn test_duty_select() {
    let mut p = Pulse::new(NegateMode::TwosComplement);
    p.length_counter.enable();
    p.write_reg(0, 0xBF);
    p.write_reg(2, 0x80);
    p.write_reg(3, 0x08);
    let mut nonzero = 0;
    for _ in 0..8 {
        if p.output() > 0 {
            nonzero += 1;
        }
        p.sequencer_pos = (p.sequencer_pos + 1) % 8;
    }
    assert_eq!(nonzero, 4);
}

#[test]
fn test_muted_when_period_low() {
    let mut p = Pulse::new(NegateMode::TwosComplement);
    p.length_counter.enable();
    p.write_reg(0, 0xBF);
    p.write_reg(3, 0x08);
    p.timer_period = 3;
    assert_eq!(p.output(), 0);
}

#[test]
fn test_target_period_add() {
    let mut s = Sweep::new(NegateMode::OnesComplement);
    s.shift = 2;
    s.negate = false;
    assert_eq!(s.target_period(400), 500);
}

#[test]
fn test_target_period_negate_ones() {
    let mut s = Sweep::new(NegateMode::OnesComplement);
    s.shift = 1;
    s.negate = true;
    assert_eq!(s.target_period(400), 199);
}

#[test]
fn test_target_period_negate_twos() {
    let mut s = Sweep::new(NegateMode::TwosComplement);
    s.shift = 1;
    s.negate = true;
    assert_eq!(s.target_period(400), 200);
}

#[test]
fn test_muting_low_period() {
    let s = Sweep::new(NegateMode::OnesComplement);
    assert!(s.muting(7));
    assert!(!s.muting(8));
}

#[test]
fn test_triangle_sequence() {
    assert_eq!(triangle_sequence(0), 15);
    assert_eq!(triangle_sequence(15), 0);
    assert_eq!(triangle_sequence(16), 0);
    assert_eq!(triangle_sequence(31), 15);
}

#[test]
fn test_output_advances() {
    let mut t = Triangle::new();
    t.length_counter.enable();
    t.write_reg(0, 0xFF);
    t.write_reg(2, 0x00);
    t.write_reg(3, 0x08);
    t.linear_counter = 10;
    assert_eq!(t.output(), triangle_sequence(0));
    t.tick();
    assert_eq!(t.output(), triangle_sequence(1));
}

#[test]
fn test_gated_by_linear_counter() {
    let mut t = Triangle::new();
    t.length_counter.enable();
    t.write_reg(3, 0x08);
    t.linear_counter = 0;
    let pos_before = t.sequencer_pos;
    t.tick();
    assert_eq!(t.sequencer_pos, pos_before);
    assert_eq!(t.output(), triangle_sequence(pos_before));
}

// ── Further scenarios ──────────────────────────────────────────────────────

#[test]
fn length_table_holds_every_entry() {
    let expected: [u8; 32] = [
        10, 254, 20, 2, 40, 4, 80, 6, 160, 8, 60, 10, 14, 12, 26, 14, 12, 16, 24, 18, 48, 20, 96,
        22, 192, 24, 72, 26, 16, 28, 32, 30,
    ];
    for (i, e) in expected.iter().enumerate() {
        assert_eq!(length_table_entry(i as u8), *e);
    }
}

#[test]
fn length_counter_state_round_trips() {
    let mut lc = LengthCounter::new();
    lc.enable();
    lc.load(4);
    lc.halt = true;
    let mut out = Vec::new();
    lc.save_state(&mut out);
    out.push(0x99);
    let mut back = LengthCounter::new();
    let mut cursor: &[u8] = &out;
    back.load_state(&mut cursor);
    assert_eq!(back.counter, 40);
    assert!(back.halt && back.enabled);
    assert_eq!(cursor, &[0x99]);
}

#[test]
fn sweep_state_round_trips() {
    let mut s = Sweep::new(NegateMode::OnesComplement);
    s.write(0xBB);
    let mut out = Vec::new();
    s.save_state(&mut out);
    let mut back = Sweep::new(NegateMode::OnesComplement);
    let mut cursor: &[u8] = &out;
    back.load_state(&mut cursor);
    assert!(back.enabled && back.negate && back.reload);
    assert_eq!(back.period, 3);
    assert_eq!(back.shift, 3);
    assert!(cursor.is_empty());
}

#[test]
fn triangle_state_round_trips() {
    let mut t = Triangle::new();
    t.write_reg(0, 0x85);
    t.write_reg(2, 0x34);
    t.write_reg(3, 0x02);
    t.sequencer_pos = 17;
    let mut out = Vec::new();
    t.save_state(&mut out);
    assert_eq!(out.len(), 12);
    let mut back = Triangle::new();
    let mut cursor: &[u8] = &out;
    back.load_state(&mut cursor);
    assert_eq!(back.timer_period, 0x234);
    assert_eq!(back.sequencer_pos, 17);
    assert!(back.control_flag && back.linear_counter_reload_flag);
    assert_eq!(back.linear_counter_reload_value, 5);
}

#[test]
fn dmc_state_round_trips() {
    let mut d = Dmc::new();
    d.write_reg(0, 0xCF);
    d.write_reg(2, 0x10);
    d.write_reg(3, 0x02);
    d.set_enabled(true);
    d.load_sample(0x5A);
    let mut out = Vec::new();
    d.save_state(&mut out);
    assert_eq!(out.len(), 23);
    let mut back = Dmc::new();
    let mut cursor: &[u8] = &out;
    back.load_state(&mut cursor);
    assert_eq!(back.timer_period, 54);
    assert_eq!(back.sample_address, 0xC400);
    assert_eq!(back.sample_length, 33);
    assert_eq!(back.bytes_remaining(), 32);
    assert_eq!(back.sample_buffer, Some(0x5A));
    assert!(back.irq_enabled && back.loop_flag && back.enabled);
}

#[test]
fn frame_counter_state_round_trips() {
    let mut fc = FrameCounter::new();
    fc.write(0xC0);
    for _ in 0..5000 {
        fc.tick();
    }
    let mut out = Vec::new();
    fc.save_state(&mut out);
    let mut back = FrameCounter::new();
    let mut cursor: &[u8] = &out;
    back.load_state(&mut cursor);
    assert_eq!(back.mode, Mode::FiveStep);
    assert!(back.irq_inhibit);
    assert_eq!(back.cycle, 5000);
}

#[test]
fn dmc_plays_sample_and_requests_bytes() {
    let mut d = Dmc::new();
    d.write_reg(0, 0x8F);
    d.write_reg(3, 0x00);
    d.set_enabled(true);
    assert_eq!(d.bytes_remaining(), 1);
    d.tick();
    assert_eq!(d.sample_request, Some(0xC000));
    d.load_sample(0xFF);
    assert_eq!(d.bytes_remaining(), 0);
    assert!(d.irq_flag);
    assert_eq!(d.sample_request, None);
    d.set_enabled(false);
    assert!(!d.irq_flag);
}

#[test]
fn dmc_output_level_stays_in_range() {
    let mut d = Dmc::new();
    d.write_reg(1, 0x7F);
    d.write_reg(0, 0x0F);
    d.write_reg(3, 0x00);
    d.set_enabled(true);
    for _ in 0..2000 {
        d.tick();
        if d.sample_request.is_some() && d.bytes_remaining() > 0 {
            d.load_sample(0xFF);
        }
        assert!(d.output() <= 127);
    }
}

#[test]
fn noise_period_and_mode_from_register() {
    let mut n = Noise::new();
    n.write_reg(2, 0x8F);
    assert!(n.mode);
    assert_eq!(n.timer_period, 4068);
    n.length_counter.enable();
    n.write_reg(3, 0x08);
    assert_eq!(n.length_counter.counter, 254);
    assert!(n.envelope.start);
}

#[test]
fn noise_register_never_locks_at_zero() {
    let mut n = Noise::new();
    for _ in 0..100_000 {
        n.clock_shift_register();
        assert!(n.shift_register != 0 && n.shift_register < 0x8000);
    }
}

#[test]
fn sweep_clock_moves_period_when_due() {
    let mut p = Pulse::new(NegateMode::TwosComplement);
    p.write_reg(2, 0x00);
    p.write_reg(3, 0x01);
    assert_eq!(p.timer_period, 0x100);
    p.write_reg(1, 0x81);
    p.clock_sweep();
    assert_eq!(p.timer_period, 0x180);
}

#[test]
fn inhibited_irq_stays_off_over_many_sequences() {
    let mut fc = FrameCounter::new();
    fc.mode = Mode::FourStep;
    fc.irq_inhibit = true;
    for _ in 0..(14915 * 4 + 7) {
        if let Some(e) = fc.tick() {
            assert!(!e.irq);
        }
        assert!(!fc.irq_flag);
    }
}
