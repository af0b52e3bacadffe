//! The two pulse (square wave) channels.
use vstd::prelude::*;

use crate::nes_apu::envelope::Envelope;
use crate::nes_apu::length_counter::{length_table, LengthCounter};
use crate::nes_apu::sweep::{NegateMode, Sweep};

verus! {

/// Step `pos` of duty cycle `duty`: 12.5%, 25%, 50% and 75% (inverted 25%).
pub open spec fn duty_bit(duty: int, pos: int) -> u8 {
    seq![
        seq![0u8, 0, 0, 0, 0, 0, 0, 1],
        seq![0u8, 0, 0, 0, 0, 0, 1, 1],
        seq![0u8, 0, 0, 0, 1, 1, 1, 1],
        seq![1u8, 1, 1, 1, 1, 1, 0, 0],
    ][duty][pos]
}

/// Low eight bits of a timer period replaced by `val`.
pub open spec fn with_timer_low(period: u16, val: u8) -> u16 {
    (period & 0x0700) | (val as u16)
}

/// High three bits of a timer period taken from the low bits of `val`.
pub open spec fn with_timer_high(period: u16, val: u8) -> u16 {
    (period & 0x00FF) | (((val as u16) & 0x07) << 8u16)
}

/// The length table index carried by a length-load register write.
pub open spec fn length_index(val: u8) -> u8 {
    (val >> 3u8) & 0x1F
}

pub proof fn lemma_length_index(val: u8)
    ensures
        length_index(val) < 32,
{
    assert((val >> 3u8) & 0x1F < 32) by (bit_vector);
}

/// Step `pos` of duty cycle `duty`.
fn duty_table(duty: u8, pos: u8) -> (r: u8)
    requires
        duty < 4,
        pos < 8,
    ensures
        r == duty_bit(duty as int, pos as int),
{
    let table: [[u8; 8]; 4] = [
        [0, 0, 0, 0, 0, 0, 0, 1],
        [0, 0, 0, 0, 0, 0, 1, 1],
        [0, 0, 0, 0, 1, 1, 1, 1],
        [1, 1, 1, 1, 1, 1, 0, 0],
    ];
    let row: [u8; 8] = table[duty as usize];
    row[pos as usize]
}

pub struct Pulse {
    pub duty: u8,
    pub timer_period: u16,
    pub timer: u16,
    pub sequencer_pos: u8,
    pub envelope: Envelope,
    pub length_counter: LengthCounter,
    pub sweep: Sweep,
}

impl Pulse {
    /// Duty and sequencer step index the duty table; the sweep shift is a
    /// valid 16-bit shift amount.
    pub open spec fn wf(self) -> bool {
        self.duty < 4 && self.sequencer_pos < 8 && self.sweep.shift < 16
    }

    /// The sample the channel outputs in this state.
    pub open spec fn output_spec(self) -> u8 {
        if !(self.length_counter.counter > 0) {
            0
        } else if self.sweep.mutes(self.timer_period) {
            0
        } else if duty_bit(self.duty as int, self.sequencer_pos as int) == 0 {
            0
        } else {
            self.envelope.volume_spec()
        }
    }

    /// The channel after one timer tick (every other CPU cycle): an expired
    /// timer reloads and the sequencer moves to the next of its eight steps.
    pub open spec fn ticked(self) -> Self {
        if self.timer == 0 {
            Pulse {
                timer: self.timer_period,
                sequencer_pos: ((self.sequencer_pos + 1) % 8) as u8,
                ..self
            }
        } else {
            Pulse { timer: (self.timer - 1) as u16, ..self }
        }
    }

    /// The channel after writing `val` to its register `reg` (0-3).
    pub open spec fn written(self, reg: u8, val: u8) -> Self {
        if reg == 0 {
            Pulse {
                duty: (val >> 6u8) & 0x03,
                length_counter: LengthCounter { halt: val & 0x20 != 0, ..self.length_counter },
                envelope: Envelope {
                    constant_volume: val & 0x10 != 0,
                    loop_flag: val & 0x20 != 0,
                    divider_period: val & 0x0F,
                    ..self.envelope
                },
                ..self
            }
        } else if reg == 1 {
            Pulse {
                sweep: Sweep {
                    enabled: val & 0x80 != 0,
                    period: (val >> 4u8) & 0x07,
                    negate: val & 0x08 != 0,
                    shift: val & 0x07,
                    reload: true,
                    ..self.sweep
                },
                ..self
            }
        } else if reg == 2 {
            Pulse { timer_period: with_timer_low(self.timer_period, val), ..self }
        } else if reg == 3 {
            Pulse {
                timer_period: with_timer_high(self.timer_period, val),
                length_counter: LengthCounter {
                    counter: if self.length_counter.enabled {
                        length_table(length_index(val) as int)
                    } else {
                        self.length_counter.counter
                    },
                    ..self.length_counter
                },
                sequencer_pos: 0,
                envelope: Envelope { start: true, ..self.envelope },
                ..self
            }
        } else {
            self
        }
    }

    /// The channel after one half-frame sweep clock.
    pub open spec fn sweep_clocked(self) -> Self {
        Pulse {
            sweep: self.sweep.clocked(),
            timer_period: match self.sweep.clock_result(self.timer_period) {
                Some(p) => p,
                None => self.timer_period,
            },
            ..self
        }
    }

    pub fn new(negate_mode: NegateMode) -> (r: Self)
        ensures
            r.wf(),
            r.duty == 0,
            r.timer_period == 0,
            r.timer == 0,
            r.sequencer_pos == 0,
            r.envelope == Envelope::new_spec(),
            r.length_counter == (LengthCounter { counter: 0, halt: false, enabled: false }),
            r.sweep == (Sweep {
                enabled: false,
                period: 0,
                negate: false,
                shift: 0,
                reload: false,
                negate_mode,
                divider: 0,
            }),
    {
        Pulse {
            duty: 0,
            timer_period: 0,
            timer: 0,
            sequencer_pos: 0,
            envelope: Envelope::new(),
            length_counter: LengthCounter::new(),
            sweep: Sweep::new(negate_mode),
        }
    }

    /// Tick the timer (every other CPU cycle): when it expires it reloads and
    /// the sequencer moves to the next of its eight steps.
    pub fn tick(&mut self)
        ensures
            *final(self) == old(self).ticked(),
            old(self).wf() ==> final(self).wf(),
    {
        if self.timer == 0 {
            self.timer = self.timer_period;
            self.sequencer_pos = ((self.sequencer_pos as u16 + 1) % 8) as u8;
        } else {
            self.timer = self.timer - 1;
        }
    }

    /// Current output sample: silent while the length counter is zero, the
    /// sweep mutes, or the duty step is low; the envelope volume otherwise.
    pub fn output(&self) -> (r: u8)
        requires
            self.wf(),
        ensures
            r == self.output_spec(),
    {
        if !self.length_counter.is_active() {
            return 0;
        }
        if self.sweep.muting(self.timer_period) {
            return 0;
        }
        if duty_table(self.duty, self.sequencer_pos) == 0 {
            return 0;
        }
        self.envelope.volume()
    }

    /// Write register `reg` (0-3) relative to the channel base ($4000/$4004).
    pub fn write_reg(&mut self, reg: u8, val: u8)
        requires
            old(self).wf(),
        ensures
            final(self).wf(),
            *final(self) == old(self).written(reg, val),
    {
        if reg == 0 {
            self.duty = (val >> 6) & 0x03;
            assert((val >> 6u8) & 0x03 < 4) by (bit_vector);
            self.length_counter.halt = val & 0x20 != 0;
            self.envelope.write(val);
        } else if reg == 1 {
            self.sweep.write(val);
        } else if reg == 2 {
            self.timer_period = (self.timer_period & 0x0700) | val as u16;
        } else if reg == 3 {
            self.timer_period = (self.timer_period & 0x00FF) | ((val as u16 & 0x07) << 8);
            proof {
                lemma_length_index(val);
            }
            self.length_counter.load((val >> 3) & 0x1F);
            self.sequencer_pos = 0;
            self.envelope.start = true;
        }
    }

    /// Clock the sweep unit, taking the new timer period when it changes.
    pub fn clock_sweep(&mut self)
        requires
            old(self).wf(),
        ensures
            final(self).wf(),
            *final(self) == old(self).sweep_clocked(),
    {
        if let Some(new_period) = self.sweep.clock(self.timer_period) {
            self.timer_period = new_period;
        }
    }
}

/// How many of the sequencer steps below `n` a pulse in state `p` (at any
/// step) outputs a non-zero sample at.
pub open spec fn high_steps(p: Pulse, n: nat) -> nat
    decreases n,
{
    if n == 0 {
        0
    } else {
        high_steps(p, (n - 1) as nat) + if (Pulse { sequencer_pos: (n - 1) as u8, ..p }).output_spec()
            > 0 {
            1nat
        } else {
            0nat
        }
    }
}

/// A sounding pulse channel (length counter running, not muted, non-zero
/// volume) is high on 1, 2, 4 or 6 of its eight sequencer steps for duty 0,
/// 1, 2 or 3 (12.5%, 25%, 50%, 75%); for duties 0 to 2 those are the last
/// steps of the sequence, and duty 3 is duty 1 inverted.
pub proof fn lemma_duty_cycles(p: Pulse, k: u8)
    requires
        p.wf(),
        p.length_counter.counter > 0,
        !p.sweep.mutes(p.timer_period),
        p.envelope.volume_spec() > 0,
        k < 8,
    ensures
        high_steps(p, 8) == if p.duty == 0 {
            1nat
        } else if p.duty == 1 {
            2nat
        } else if p.duty == 2 {
            4nat
        } else {
            6nat
        },
        p.duty < 3 ==> ((Pulse { sequencer_pos: k, ..p }).output_spec() > 0 <==> k >= 8 - high_steps(
            p,
            8,
        )),
        ((Pulse { duty: 3, sequencer_pos: k, ..p }).output_spec() > 0) == !((Pulse {
            duty: 1,
            sequencer_pos: k,
            ..p
        }).output_spec() > 0),
{
    reveal_with_fuel(high_steps, 9);
}

} // verus!
