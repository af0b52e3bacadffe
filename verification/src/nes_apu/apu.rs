//! The 2A03 APU's channels, frame sequencing and registers, without the
//! mixing and resampling (done by the audio output).
use vstd::prelude::*;

use crate::nes_apu::dmc::Dmc;
use crate::nes_apu::frame_counter::{FrameCounter, FrameEvent};
use crate::nes_apu::noise::Noise;
use crate::nes_apu::pulse::Pulse;
use crate::nes_apu::sweep::NegateMode;
use crate::nes_apu::triangle::Triangle;

verus! {

/// The five channels, the frame counter and the CPU-cycle count.
pub struct ApuChannels {
    pub pulse1: Pulse,
    pub pulse2: Pulse,
    pub triangle: Triangle,
    pub noise: Noise,
    pub dmc: Dmc,
    pub frame_counter: FrameCounter,
    /// CPU cycles ticked.
    pub cycle: u64,
    /// Whether the current cycle is an even one (pulse, noise and frame
    /// counter run every other cycle).
    pub even_cycle: bool,
}

/// The bit of the status byte that reports `cond`.
pub open spec fn flag_bit(cond: bool, bit: u8) -> u8 {
    if cond {
        bit
    } else {
        0
    }
}

impl ApuChannels {
    pub open spec fn wf(self) -> bool {
        self.pulse1.wf() && self.pulse2.wf() && self.triangle.wf() && self.frame_counter.wf()
    }

    /// Envelopes and the triangle's linear counter clocked.
    pub open spec fn quarter_clocked(self) -> Self {
        ApuChannels {
            pulse1: Pulse { envelope: self.pulse1.envelope.clocked(), ..self.pulse1 },
            pulse2: Pulse { envelope: self.pulse2.envelope.clocked(), ..self.pulse2 },
            triangle: self.triangle.linear_clocked(),
            noise: Noise { envelope: self.noise.envelope.clocked(), ..self.noise },
            ..self
        }
    }

    /// Length counters and the pulse sweeps clocked.
    pub open spec fn half_clocked(self) -> Self {
        ApuChannels {
            pulse1: Pulse {
                length_counter: self.pulse1.length_counter.clocked(),
                ..self.pulse1
            }.sweep_clocked(),
            pulse2: Pulse {
                length_counter: self.pulse2.length_counter.clocked(),
                ..self.pulse2
            }.sweep_clocked(),
            triangle: Triangle {
                length_counter: self.triangle.length_counter.clocked(),
                ..self.triangle
            },
            noise: Noise { length_counter: self.noise.length_counter.clocked(), ..self.noise },
            ..self
        }
    }

    /// The state after a frame event is applied: quarter frame, then half frame.
    pub open spec fn event_applied(self, e: Option<FrameEvent>) -> Self {
        match e {
            Some(ev) => {
                let s1 = if ev.quarter_frame {
                    self.quarter_clocked()
                } else {
                    self
                };
                if ev.half_frame {
                    s1.half_clocked()
                } else {
                    s1
                }
            },
            None => self,
        }
    }

    /// The state after one CPU cycle: triangle and DMC tick every cycle;
    /// on even cycles the pulses, the noise and the frame counter tick too,
    /// and the frame counter's event is applied.
    pub open spec fn ticked(self) -> Self {
        let s1 = ApuChannels {
            cycle: (self.cycle + 1) as u64,
            even_cycle: !self.even_cycle,
            triangle: self.triangle.ticked(),
            dmc: self.dmc.ticked(),
            ..self
        };
        if s1.even_cycle {
            let (fc, e) = s1.frame_counter.ticked();
            ApuChannels {
                pulse1: s1.pulse1.ticked(),
                pulse2: s1.pulse2.ticked(),
                noise: s1.noise.ticked(),
                frame_counter: fc,
                ..s1
            }.event_applied(e)
        } else {
            s1
        }
    }

    /// The $4015 status byte: length counters active (bits 0-3), DMC bytes
    /// remaining (bit 4), frame IRQ (bit 6), DMC IRQ (bit 7).
    pub open spec fn status(self) -> u8 {
        flag_bit(self.pulse1.length_counter.counter > 0, 0x01) | flag_bit(
            self.pulse2.length_counter.counter > 0,
            0x02,
        ) | flag_bit(self.triangle.length_counter.counter > 0, 0x04) | flag_bit(
            self.noise.length_counter.counter > 0,
            0x08,
        ) | flag_bit(self.dmc.bytes_remaining > 0, 0x10) | flag_bit(
            self.frame_counter.irq_flag,
            0x40,
        ) | flag_bit(self.dmc.irq_flag, 0x80)
    }

    /// The state after writing `val` to register `addr`.
    pub open spec fn register_written(self, addr: u16, val: u8) -> Self {
        if 0x4000 <= addr <= 0x4003 {
            ApuChannels { pulse1: self.pulse1.written((addr & 0x03) as u8, val), ..self }
        } else if 0x4004 <= addr <= 0x4007 {
            ApuChannels { pulse2: self.pulse2.written((addr & 0x03) as u8, val), ..self }
        } else if 0x4008 <= addr <= 0x400B {
            ApuChannels { triangle: self.triangle.written((addr - 0x4008) as u8, val), ..self }
        } else if 0x400C <= addr <= 0x400F {
            ApuChannels { noise: self.noise.written((addr - 0x400C) as u8, val), ..self }
        } else if 0x4010 <= addr <= 0x4013 {
            ApuChannels { dmc: self.dmc.written((addr - 0x4010) as u8, val), ..self }
        } else if addr == 0x4015 {
            ApuChannels {
                pulse1: Pulse {
                    length_counter: self.pulse1.length_counter.with_enabled(val & 0x01 != 0),
                    ..self.pulse1
                },
                pulse2: Pulse {
                    length_counter: self.pulse2.length_counter.with_enabled(val & 0x02 != 0),
                    ..self.pulse2
                },
                triangle: Triangle {
                    length_counter: self.triangle.length_counter.with_enabled(val & 0x04 != 0),
                    ..self.triangle
                },
                noise: Noise {
                    length_counter: self.noise.length_counter.with_enabled(val & 0x08 != 0),
                    ..self.noise
                },
                dmc: self.dmc.with_enabled(val & 0x10 != 0),
                ..self
            }
        } else if addr == 0x4017 {
            let (fc, e) = self.frame_counter.written(val);
            ApuChannels { frame_counter: fc, ..self }.event_applied(e)
        } else {
            self
        }
    }

    /// Power-on state: pulse 1 negates in ones' complement, pulse 2 in twos'.
    pub fn new() -> (r: Self)
        ensures
            r.wf(),
            r.cycle == 0,
            !r.even_cycle,
            r.pulse1.sweep.negate_mode == NegateMode::OnesComplement,
            r.pulse2.sweep.negate_mode == NegateMode::TwosComplement,
            r.frame_counter == FrameCounter::new_spec(),
            r.dmc == Dmc::new_spec(),
            r.pulse1.length_counter.counter == 0,
            r.pulse2.length_counter.counter == 0,
            r.triangle.length_counter.counter == 0,
            r.noise.length_counter.counter == 0,
    {
        ApuChannels {
            pulse1: Pulse::new(NegateMode::OnesComplement),
            pulse2: Pulse::new(NegateMode::TwosComplement),
            triangle: Triangle::new(),
            noise: Noise::new(),
            dmc: Dmc::new(),
            frame_counter: FrameCounter::new(),
            cycle: 0,
            even_cycle: false,
        }
    }

    fn clock_quarter_frame(&mut self)
        ensures
            *final(self) == old(self).quarter_clocked(),
            old(self).wf() ==> final(self).wf(),
    {
        self.pulse1.envelope.clock();
        self.pulse2.envelope.clock();
        self.triangle.clock_linear_counter();
        self.noise.envelope.clock();
    }

    fn clock_half_frame(&mut self)
        requires
            old(self).wf(),
        ensures
            *final(self) == old(self).half_clocked(),
            final(self).wf(),
    {
        self.pulse1.length_counter.clock();
        self.pulse2.length_counter.clock();
        self.triangle.length_counter.clock();
        self.noise.length_counter.clock();
        self.pulse1.clock_sweep();
        self.pulse2.clock_sweep();
    }

    fn apply_event(&mut self, event: Option<FrameEvent>)
        requires
            old(self).wf(),
        ensures
            *final(self) == old(self).event_applied(event),
            final(self).wf(),
    {
        if let Some(e) = event {
            if e.quarter_frame {
                self.clock_quarter_frame();
            }
            if e.half_frame {
                self.clock_half_frame();
            }
        }
    }

    /// Tick one CPU cycle.
    pub fn tick(&mut self)
        requires
            old(self).wf(),
            old(self).cycle < u64::MAX,
        ensures
            *final(self) == old(self).ticked(),
            final(self).wf(),
    {
        self.cycle = self.cycle + 1;
        self.even_cycle = !self.even_cycle;
        self.triangle.tick();
        self.dmc.tick();
        if self.even_cycle {
            self.pulse1.tick();
            self.pulse2.tick();
            self.noise.tick();
            let event = self.frame_counter.tick();
            self.apply_event(event);
        }
    }

    /// The five channel outputs: pulse 1, pulse 2, triangle, noise, DMC.
    pub fn outputs(&self) -> (r: (u8, u8, u8, u8, u8))
        requires
            self.wf(),
        ensures
            r == (
                self.pulse1.output_spec(),
                self.pulse2.output_spec(),
                crate::nes_apu::triangle::triangle_step(self.triangle.sequencer_pos as int),
                self.noise.output_spec(),
                self.dmc.output_level,
            ),
    {
        (
            self.pulse1.output(),
            self.pulse2.output(),
            self.triangle.output(),
            self.noise.output(),
            self.dmc.output(),
        )
    }

    /// Whether an APU interrupt is asserted (frame counter or DMC).
    pub fn irq_pending(&self) -> (r: bool)
        ensures
            r == (self.frame_counter.irq_flag || self.dmc.irq_flag),
    {
        self.frame_counter.irq_flag || self.dmc.irq_flag
    }

    /// Read a register: $4015 returns the status byte and clears the frame
    /// IRQ flag; every other address reads 0.
    pub fn read_register(&mut self, addr: u16) -> (r: u8)
        ensures
            addr == 0x4015 ==> r == old(self).status() && *final(self) == (ApuChannels {
                frame_counter: FrameCounter { irq_flag: false, ..old(self).frame_counter },
                ..*old(self)
            }),
            addr != 0x4015 ==> r == 0 && *final(self) == *old(self),
    {
        if addr == 0x4015 {
            let mut status: u8 = 0;
            if self.pulse1.length_counter.is_active() {
                status = status | 0x01;
            }
            if self.pulse2.length_counter.is_active() {
                status = status | 0x02;
            }
            if self.triangle.length_counter.is_active() {
                status = status | 0x04;
            }
            if self.noise.length_counter.is_active() {
                status = status | 0x08;
            }
            if self.dmc.bytes_remaining() > 0 {
                status = status | 0x10;
            }
            if self.frame_counter.irq_flag {
                status = status | 0x40;
            }
            if self.dmc.irq_flag {
                status = status | 0x80;
            }
            assert(status == self.status()) by {
                assert(0u8 | 0u8 == 0u8) by (bit_vector);
                assert(forall|x: u8| #![auto] x | 0u8 == x) by (bit_vector);
                assert(forall|x: u8| #![auto] 0u8 | x == x) by (bit_vector);
            }
            self.frame_counter.irq_flag = false;
            status
        } else {
            0
        }
    }

    /// Write a register ($4000-$4013 channels, $4015 enables, $4017 frame
    /// counter); other addresses are ignored.
    pub fn write_register(&mut self, addr: u16, val: u8)
        requires
            old(self).wf(),
        ensures
            *final(self) == old(self).register_written(addr, val),
            final(self).wf(),
    {
        if 0x4000 <= addr && addr <= 0x4003 {
            self.pulse1.write_reg((addr & 0x03) as u8, val);
        } else if 0x4004 <= addr && addr <= 0x4007 {
            self.pulse2.write_reg((addr & 0x03) as u8, val);
        } else if 0x4008 <= addr && addr <= 0x400B {
            self.triangle.write_reg((addr - 0x4008) as u8, val);
        } else if 0x400C <= addr && addr <= 0x400F {
            self.noise.write_reg((addr - 0x400C) as u8, val);
        } else if 0x4010 <= addr && addr <= 0x4013 {
            self.dmc.write_reg((addr - 0x4010) as u8, val);
        } else if addr == 0x4015 {
            self.pulse1.length_counter.set_enabled(val & 0x01 != 0);
            self.pulse2.length_counter.set_enabled(val & 0x02 != 0);
            self.triangle.length_counter.set_enabled(val & 0x04 != 0);
            self.noise.length_counter.set_enabled(val & 0x08 != 0);
            self.dmc.set_enabled(val & 0x10 != 0);
        } else if addr == 0x4017 {
            let event = self.frame_counter.write(val);
            self.apply_event(event);
        }
    }

    /// Take the pending DMC sample fetch address, if any.
    pub fn dmc_sample_request(&mut self) -> (r: Option<u16>)
        ensures
            r == old(self).dmc.sample_request,
            *final(self) == (ApuChannels {
                dmc: Dmc { sample_request: None, ..old(self).dmc },
                ..*old(self)
            }),
    {
        let r = self.dmc.sample_request;
        self.dmc.sample_request = None;
        r
    }

    /// Hand the DMC the byte it asked for.
    pub fn dmc_load_sample(&mut self, val: u8)
        requires
            old(self).dmc.bytes_remaining > 0,
        ensures
            *final(self) == (ApuChannels { dmc: old(self).dmc.sample_loaded(val), ..*old(self) }),
    {
        self.dmc.load_sample(val);
    }
}

/// Each bit of the status byte reports exactly its condition.
pub proof fn lemma_status_bits(apu: ApuChannels)
    ensures
        (apu.status() & 0x01 != 0) == (apu.pulse1.length_counter.counter > 0),
        (apu.status() & 0x02 != 0) == (apu.pulse2.length_counter.counter > 0),
        (apu.status() & 0x04 != 0) == (apu.triangle.length_counter.counter > 0),
        (apu.status() & 0x08 != 0) == (apu.noise.length_counter.counter > 0),
        (apu.status() & 0x10 != 0) == (apu.dmc.bytes_remaining > 0),
        (apu.status() & 0x20 == 0),
        (apu.status() & 0x40 != 0) == apu.frame_counter.irq_flag,
        (apu.status() & 0x80 != 0) == apu.dmc.irq_flag,
{
    let a = apu.pulse1.length_counter.counter > 0;
    let b = apu.pulse2.length_counter.counter > 0;
    let c = apu.triangle.length_counter.counter > 0;
    let d = apu.noise.length_counter.counter > 0;
    let e = apu.dmc.bytes_remaining > 0;
    let f = apu.frame_counter.irq_flag;
    let g = apu.dmc.irq_flag;
    assert({
        let s = (if a { 1u8 } else { 0u8 }) | (if b { 2u8 } else { 0u8 }) | (if c { 4u8 } else { 0u8 })
            | (if d { 8u8 } else { 0u8 }) | (if e { 0x10u8 } else { 0u8 }) | (if f { 0x40u8 } else {
            0u8 }) | (if g { 0x80u8 } else { 0u8 });
        &&& (s & 0x01 != 0) == a
        &&& (s & 0x02 != 0) == b
        &&& (s & 0x04 != 0) == c
        &&& (s & 0x08 != 0) == d
        &&& (s & 0x10 != 0) == e
        &&& (s & 0x20 == 0)
        &&& (s & 0x40 != 0) == f
        &&& (s & 0x80 != 0) == g
    }) by (bit_vector);
}

} // verus!
