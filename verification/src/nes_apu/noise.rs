//! The noise channel: a 15-bit linear feedback shift register.
use vstd::prelude::*;

use crate::nes_apu::envelope::Envelope;
use crate::nes_apu::length_counter::{length_table, LengthCounter};
use crate::nes_apu::pulse::{length_index, lemma_length_index};

verus! {

/// NTSC noise timer period for each of the sixteen period indices.
pub open spec fn noise_period(index: int) -> u16 {
    seq![4u16, 8, 16, 32, 64, 96, 128, 160, 202, 254, 380, 508, 762, 1016, 2034, 4068][index]
}

/// Noise timer period for `index`.
pub fn noise_period_table(index: u8) -> (r: u16)
    requires
        index < 16,
    ensures
        r == noise_period(index as int),
{
    let table: [u16; 16] = [4, 8, 16, 32, 64, 96, 128, 160, 202, 254, 380, 508, 762, 1016, 2034, 4068];
    table[index as usize]
}

/// The shift register after one clock: shift right by one, feeding bit 0
/// XOR bit 6 (short mode) or bit 1 (long mode) into bit 14.
pub open spec fn lfsr_next(r: u16, short_mode: bool) -> u16 {
    let tap: u16 = if short_mode {
        6
    } else {
        1
    };
    let feedback = (r & 1) ^ ((r >> tap) & 1);
    (r >> 1u16) | (feedback << 14u16)
}

pub struct Noise {
    pub timer_period: u16,
    pub timer: u16,
    /// 15-bit linear feedback shift register.
    pub shift_register: u16,
    /// When true, bit 6 feeds back (short mode); otherwise bit 1.
    pub mode: bool,
    pub envelope: Envelope,
    pub length_counter: LengthCounter,
}

impl Noise {
    /// The sample the channel outputs in this state.
    pub open spec fn output_spec(self) -> u8 {
        if !(self.length_counter.counter > 0) {
            0
        } else if self.shift_register & 1 != 0 {
            0
        } else {
            self.envelope.volume_spec()
        }
    }

    /// The channel after one timer tick (every other CPU cycle): an expired
    /// timer reloads and clocks the shift register.
    pub open spec fn ticked(self) -> Self {
        if self.timer == 0 {
            Noise {
                timer: self.timer_period,
                shift_register: lfsr_next(self.shift_register, self.mode),
                ..self
            }
        } else {
            Noise { timer: (self.timer - 1) as u16, ..self }
        }
    }

    /// The channel after writing `val` to its register `reg` (0-3).
    pub open spec fn written(self, reg: u8, val: u8) -> Self {
        if reg == 0 {
            Noise {
                length_counter: LengthCounter { halt: val & 0x20 != 0, ..self.length_counter },
                envelope: Envelope {
                    constant_volume: val & 0x10 != 0,
                    loop_flag: val & 0x20 != 0,
                    divider_period: val & 0x0F,
                    ..self.envelope
                },
                ..self
            }
        } else if reg == 2 {
            Noise {
                mode: val & 0x80 != 0,
                timer_period: noise_period((val & 0x0F) as int),
                ..self
            }
        } else if reg == 3 {
            Noise {
                length_counter: LengthCounter {
                    counter: if self.length_counter.enabled {
                        length_table(length_index(val) as int)
                    } else {
                        self.length_counter.counter
                    },
                    ..self.length_counter
                },
                envelope: Envelope { start: true, ..self.envelope },
                ..self
            }
        } else {
            self
        }
    }

    pub fn new() -> (r: Self)
        ensures
            r.timer_period == 0,
            r.timer == 0,
            r.shift_register == 1,
            !r.mode,
            r.envelope == Envelope::new_spec(),
            r.length_counter == (LengthCounter { counter: 0, halt: false, enabled: false }),
    {
        Noise {
            timer_period: 0,
            timer: 0,
            shift_register: 1,
            mode: false,
            envelope: Envelope::new(),
            length_counter: LengthCounter::new(),
        }
    }

    /// Tick the timer (every other CPU cycle); an expiring timer reloads and
    /// clocks the shift register.
    pub fn tick(&mut self)
        ensures
            *final(self) == old(self).ticked(),
    {
        if self.timer == 0 {
            self.timer = self.timer_period;
            self.clock_shift_register();
        } else {
            self.timer = self.timer - 1;
        }
    }

    /// Clock the shift register once.
    pub fn clock_shift_register(&mut self)
        ensures
            *final(self) == (Noise {
                shift_register: lfsr_next(old(self).shift_register, old(self).mode),
                ..*old(self)
            }),
    {
        let feedback_bit: u16 = if self.mode {
            6
        } else {
            1
        };
        let feedback = (self.shift_register & 1) ^ ((self.shift_register >> feedback_bit) & 1);
        self.shift_register = self.shift_register >> 1;
        self.shift_register = self.shift_register | (feedback << 14);
    }

    /// Current output sample: silent while the length counter is zero or bit
    /// 0 of the shift register is set; the envelope volume otherwise.
    pub fn output(&self) -> (r: u8)
        ensures
            r == self.output_spec(),
    {
        if !self.length_counter.is_active() {
            return 0;
        }
        if self.shift_register & 1 != 0 {
            return 0;
        }
        self.envelope.volume()
    }

    /// Write register `reg` (0-3) relative to $400C.
    pub fn write_reg(&mut self, reg: u8, val: u8)
        ensures
            *final(self) == old(self).written(reg, val),
    {
        if reg == 0 {
            self.length_counter.halt = val & 0x20 != 0;
            self.envelope.write(val);
        } else if reg == 2 {
            self.mode = val & 0x80 != 0;
            assert(val & 0x0F < 16) by (bit_vector);
            self.timer_period = noise_period_table(val & 0x0F);
        } else if reg == 3 {
            proof {
                lemma_length_index(val);
            }
            self.length_counter.load((val >> 3) & 0x1F);
            self.envelope.start = true;
        }
    }
}

/// A nonzero 15-bit register stays a nonzero 15-bit register: the noise
/// never locks up at zero.
pub proof fn lemma_lfsr_nonzero(r: u16, short_mode: bool)
    requires
        0 < r < 0x8000,
    ensures
        0 < lfsr_next(r, short_mode) < 0x8000,
{
    let tap: u16 = if short_mode {
        6
    } else {
        1
    };
    assert(0 < r < 0x8000 && (tap == 6 || tap == 1) ==> 0 < ((r >> 1u16) | (((r & 1) ^ ((r >> tap)
        & 1)) << 14u16)) < 0x8000) by (bit_vector);
}

} // verus!
