//! The delta modulation channel: plays 1-bit DPCM samples fetched from CPU
//! memory.
use vstd::prelude::*;

use crate::nes_apu::length_counter::bool_byte;
use crate::nes_cpu::state::{
    from_le16, le16, read_bool, read_u16, read_u8, write_bool, write_u16, write_u8,
};

verus! {

/// NTSC DMC timer period (in CPU cycles) for each rate index.
pub open spec fn dmc_rate(index: int) -> u16 {
    seq![428u16, 380, 340, 320, 286, 254, 226, 214, 190, 160, 142, 128, 106, 84, 72, 54][index]
}

/// DMC timer period for rate `index`.
pub fn dmc_rate_table(index: u8) -> (r: u16)
    requires
        index < 16,
    ensures
        r == dmc_rate(index as int),
{
    let table: [u16; 16] = [428, 380, 340, 320, 286, 254, 226, 214, 190, 160, 142, 128, 106, 84, 72, 54];
    table[index as usize]
}

pub struct Dmc {
    pub irq_enabled: bool,
    pub loop_flag: bool,
    pub rate_index: u8,
    pub timer: u16,
    pub timer_period: u16,
    /// Sample start address and length, from the registers.
    pub sample_address: u16,
    pub sample_length: u16,
    /// Playback position.
    pub current_address: u16,
    pub bytes_remaining: u16,
    /// Output unit.
    pub output_level: u8,
    pub shift_register: u8,
    pub bits_remaining: u8,
    pub silence_flag: bool,
    /// The sample byte fetched from CPU memory, if any.
    pub sample_buffer: Option<u8>,
    /// Set when the DMC needs a byte from CPU memory: the system reads this
    /// address and hands the byte to `load_sample`.
    pub sample_request: Option<u16>,
    pub irq_flag: bool,
    pub enabled: bool,
}

impl Dmc {
    /// The output unit after one expiry of the timer: an exhausted bit count
    /// starts a new 8-bit cycle from the sample buffer (or in silence); then,
    /// unless silent, bit 0 moves the level up or down by two within 0..=127
    /// and the shift register moves right.
    pub open spec fn output_clocked(self) -> Self {
        let s1 = if self.bits_remaining == 0 {
            match self.sample_buffer {
                Some(b) => Dmc {
                    silence_flag: false,
                    shift_register: b,
                    sample_buffer: None,
                    bits_remaining: 8,
                    ..self
                },
                None => Dmc { silence_flag: true, bits_remaining: 8, ..self },
            }
        } else {
            self
        };
        let s2 = if !s1.silence_flag {
            Dmc {
                output_level: if s1.shift_register & 1 != 0 {
                    if s1.output_level <= 125 {
                        (s1.output_level + 2) as u8
                    } else {
                        s1.output_level
                    }
                } else if s1.output_level >= 2 {
                    (s1.output_level - 2) as u8
                } else {
                    s1.output_level
                },
                shift_register: s1.shift_register >> 1u8,
                ..s1
            }
        } else {
            s1
        };
        Dmc { bits_remaining: (s2.bits_remaining - 1) as u8, ..s2 }
    }

    /// The channel after one CPU-cycle tick: the timer counts down (clocking
    /// the output unit when it expires and reloads), then a fetch is
    /// requested when the buffer is empty, bytes remain and none is pending.
    pub open spec fn ticked(self) -> Self {
        let s1 = if self.timer == 0 {
            Dmc { timer: self.timer_period, ..self }.output_clocked()
        } else {
            Dmc { timer: (self.timer - 1) as u16, ..self }
        };
        if s1.sample_buffer is None && s1.bytes_remaining > 0 && s1.sample_request is None {
            Dmc { sample_request: Some(s1.current_address), ..s1 }
        } else {
            s1
        }
    }

    /// The channel after the fetched byte `val` arrives.
    pub open spec fn sample_loaded(self, val: u8) -> Self {
        let s1 = Dmc {
            sample_buffer: Some(val),
            sample_request: None,
            current_address: ((self.current_address + 1) % 65536) as u16 | 0x8000,
            bytes_remaining: (self.bytes_remaining - 1) as u16,
            ..self
        };
        if s1.bytes_remaining == 0 {
            if s1.loop_flag {
                Dmc { current_address: s1.sample_address, bytes_remaining: s1.sample_length, ..s1 }
            } else if s1.irq_enabled {
                Dmc { irq_flag: true, ..s1 }
            } else {
                s1
            }
        } else {
            s1
        }
    }

    /// The channel after writing `val` to its register `reg` (0-3).
    pub open spec fn written(self, reg: u8, val: u8) -> Self {
        if reg == 0 {
            Dmc {
                irq_enabled: val & 0x80 != 0,
                loop_flag: val & 0x40 != 0,
                rate_index: val & 0x0F,
                timer_period: dmc_rate((val & 0x0F) as int),
                irq_flag: if val & 0x80 != 0 {
                    self.irq_flag
                } else {
                    false
                },
                ..self
            }
        } else if reg == 1 {
            Dmc { output_level: val & 0x7F, ..self }
        } else if reg == 2 {
            Dmc { sample_address: (0xC000 + val * 64) as u16, ..self }
        } else if reg == 3 {
            Dmc { sample_length: (val * 16 + 1) as u16, ..self }
        } else {
            self
        }
    }

    /// The channel after its enable bit in $4015 is written: the IRQ flag
    /// clears; disabling drops the remaining bytes, enabling restarts an
    /// idle sample.
    pub open spec fn with_enabled(self, enabled: bool) -> Self {
        if !enabled {
            Dmc { enabled: false, irq_flag: false, bytes_remaining: 0, ..self }
        } else if self.bytes_remaining == 0 {
            Dmc {
                enabled: true,
                irq_flag: false,
                current_address: self.sample_address,
                bytes_remaining: self.sample_length,
                ..self
            }
        } else {
            Dmc { enabled: true, irq_flag: false, ..self }
        }
    }

    /// The bytes `save_state` appends.
    pub open spec fn encoding(self) -> Seq<u8> {
        seq![bool_byte(self.irq_enabled), bool_byte(self.loop_flag), self.rate_index] + le16(
            self.timer,
        ) + le16(self.timer_period) + le16(self.sample_address) + le16(self.sample_length) + le16(
            self.current_address,
        ) + le16(self.bytes_remaining) + seq![
            self.output_level,
            self.shift_register,
            self.bits_remaining,
            bool_byte(self.silence_flag),
            bool_byte(self.sample_buffer is Some),
            match self.sample_buffer {
                Some(b) => b,
                None => 0,
            },
            bool_byte(self.irq_flag),
            bool_byte(self.enabled),
        ]
    }

    /// The channel `load_state` reads from the front of `s` (no fetch pending).
    pub open spec fn decoded(s: Seq<u8>) -> Self {
        Dmc {
            irq_enabled: s[0] != 0,
            loop_flag: s[1] != 0,
            rate_index: s[2],
            timer: from_le16(s.subrange(3, s.len() as int)),
            timer_period: from_le16(s.subrange(5, s.len() as int)),
            sample_address: from_le16(s.subrange(7, s.len() as int)),
            sample_length: from_le16(s.subrange(9, s.len() as int)),
            current_address: from_le16(s.subrange(11, s.len() as int)),
            bytes_remaining: from_le16(s.subrange(13, s.len() as int)),
            output_level: s[15],
            shift_register: s[16],
            bits_remaining: s[17],
            silence_flag: s[18] != 0,
            sample_buffer: if s[19] != 0 {
                Some(s[20])
            } else {
                None
            },
            irq_flag: s[21] != 0,
            enabled: s[22] != 0,
            sample_request: None,
        }
    }

    /// Power-on state: idle, silent, rate 0, sample at $C000 of length 1.
    pub open spec fn new_spec() -> Self {
        Dmc {
            irq_enabled: false,
            loop_flag: false,
            rate_index: 0,
            timer: 0,
            timer_period: 428,
            sample_address: 0xC000,
            sample_length: 1,
            current_address: 0xC000,
            bytes_remaining: 0,
            output_level: 0,
            shift_register: 0,
            bits_remaining: 0,
            silence_flag: true,
            sample_buffer: None,
            sample_request: None,
            irq_flag: false,
            enabled: false,
        }
    }

    pub fn new() -> (r: Self)
        ensures
            r == Self::new_spec(),
    {
        Dmc {
            irq_enabled: false,
            loop_flag: false,
            rate_index: 0,
            timer: 0,
            timer_period: dmc_rate_table(0),
            sample_address: 0xC000,
            sample_length: 1,
            current_address: 0xC000,
            bytes_remaining: 0,
            output_level: 0,
            shift_register: 0,
            bits_remaining: 0,
            silence_flag: true,
            sample_buffer: None,
            sample_request: None,
            irq_flag: false,
            enabled: false,
        }
    }

    /// Tick the DMC timer (every CPU cycle).
    pub fn tick(&mut self)
        ensures
            *final(self) == old(self).ticked(),
    {
        if self.timer == 0 {
            self.timer = self.timer_period;
            self.clock_output();
        } else {
            self.timer = self.timer - 1;
        }

        if self.sample_buffer.is_none() && self.bytes_remaining > 0 && self.sample_request.is_none() {
            self.sample_request = Some(self.current_address);
        }
    }

    fn clock_output(&mut self)
        ensures
            *final(self) == old(self).output_clocked(),
    {
        if self.bits_remaining == 0 {
            match self.sample_buffer {
                Some(byte) => {
                    self.sample_buffer = None;
                    self.silence_flag = false;
                    self.shift_register = byte;
                },
                None => {
                    self.silence_flag = true;
                },
            }
            self.bits_remaining = 8;
        }
        if !self.silence_flag {
            if self.shift_register & 1 != 0 {
                if self.output_level <= 125 {
                    self.output_level = self.output_level + 2;
                }
            } else if self.output_level >= 2 {
                self.output_level = self.output_level - 2;
            }
            self.shift_register = self.shift_register >> 1;
        }
        self.bits_remaining = self.bits_remaining - 1;
    }

    /// Load a sample byte fetched from CPU memory.
    pub fn load_sample(&mut self, val: u8)
        requires
            old(self).bytes_remaining > 0,
        ensures
            *final(self) == old(self).sample_loaded(val),
    {
        self.sample_buffer = Some(val);
        self.sample_request = None;
        self.current_address = self.current_address.wrapping_add(1) | 0x8000;
        self.bytes_remaining = self.bytes_remaining - 1;

        if self.bytes_remaining == 0 {
            if self.loop_flag {
                self.restart();
            } else if self.irq_enabled {
                self.irq_flag = true;
            }
        }
    }

    fn restart(&mut self)
        ensures
            *final(self) == (Dmc {
                current_address: old(self).sample_address,
                bytes_remaining: old(self).sample_length,
                ..*old(self)
            }),
    {
        self.current_address = self.sample_address;
        self.bytes_remaining = self.sample_length;
    }

    pub fn save_state(&self, out: &mut Vec<u8>)
        ensures
            final(out)@ == old(out)@ + self.encoding(),
    {
        let ghost start = out@;
        write_bool(out, self.irq_enabled);
        write_bool(out, self.loop_flag);
        write_u8(out, self.rate_index);
        let ghost head = seq![bool_byte(self.irq_enabled), bool_byte(self.loop_flag), self.rate_index];
        assert(out@ =~= start + head);
        self.save_words(out);
        self.save_tail(out);
        assert(self.encoding() =~= head + self.words() + self.tail());
        assert(out@ =~= start + self.encoding());
    }

    /// The six 16-bit fields, as saved.
    pub open spec fn words(self) -> Seq<u8> {
        le16(self.timer) + le16(self.timer_period) + le16(self.sample_address) + le16(
            self.sample_length,
        ) + le16(self.current_address) + le16(self.bytes_remaining)
    }

    /// The output unit, buffer and flags, as saved.
    pub open spec fn tail(self) -> Seq<u8> {
        seq![
            self.output_level,
            self.shift_register,
            self.bits_remaining,
            bool_byte(self.silence_flag),
            bool_byte(self.sample_buffer is Some),
            match self.sample_buffer {
                Some(b) => b,
                None => 0,
            },
            bool_byte(self.irq_flag),
            bool_byte(self.enabled),
        ]
    }

    fn save_words(&self, out: &mut Vec<u8>)
        ensures
            final(out)@ == old(out)@ + self.words(),
    {
        let ghost start = out@;
        write_u16(out, self.timer);
        write_u16(out, self.timer_period);
        write_u16(out, self.sample_address);
        write_u16(out, self.sample_length);
        write_u16(out, self.current_address);
        write_u16(out, self.bytes_remaining);
        assert(out@ =~= start + self.words());
    }

    fn save_tail(&self, out: &mut Vec<u8>)
        ensures
            final(out)@ == old(out)@ + self.tail(),
    {
        let ghost start = out@;
        write_u8(out, self.output_level);
        write_u8(out, self.shift_register);
        write_u8(out, self.bits_remaining);
        write_bool(out, self.silence_flag);
        write_bool(out, self.sample_buffer.is_some());
        let buffered: u8 = match self.sample_buffer {
            Some(b) => b,
            None => 0,
        };
        write_u8(out, buffered);
        write_bool(out, self.irq_flag);
        write_bool(out, self.enabled);
        assert(out@ =~= start + self.tail());
    }

    pub fn load_state(&mut self, cursor: &mut &[u8])
        requires
            old(cursor)@.len() >= 23,
        ensures
            *final(self) == Self::decoded(old(cursor)@),
            final(cursor)@ == old(cursor)@.subrange(23, old(cursor)@.len() as int),
    {
        let ghost s = cursor@;
        self.irq_enabled = read_bool(cursor);
        self.loop_flag = read_bool(cursor);
        self.rate_index = read_u8(cursor);
        assert(cursor@ =~= s.subrange(3, s.len() as int));
        self.timer = read_u16(cursor);
        assert(cursor@ =~= s.subrange(5, s.len() as int));
        self.timer_period = read_u16(cursor);
        assert(cursor@ =~= s.subrange(7, s.len() as int));
        self.sample_address = read_u16(cursor);
        assert(cursor@ =~= s.subrange(9, s.len() as int));
        self.sample_length = read_u16(cursor);
        assert(cursor@ =~= s.subrange(11, s.len() as int));
        self.current_address = read_u16(cursor);
        assert(cursor@ =~= s.subrange(13, s.len() as int));
        self.bytes_remaining = read_u16(cursor);
        assert(cursor@ =~= s.subrange(15, s.len() as int));
        self.output_level = read_u8(cursor);
        self.shift_register = read_u8(cursor);
        self.bits_remaining = read_u8(cursor);
        self.silence_flag = read_bool(cursor);
        let has_buf = read_bool(cursor);
        let buf_val = read_u8(cursor);
        self.sample_buffer = if has_buf {
            Some(buf_val)
        } else {
            None
        };
        self.irq_flag = read_bool(cursor);
        self.enabled = read_bool(cursor);
        self.sample_request = None;
        assert(cursor@ =~= s.subrange(23, s.len() as int));
    }

    /// Write register `reg` (0-3) relative to $4010.
    pub fn write_reg(&mut self, reg: u8, val: u8)
        ensures
            *final(self) == old(self).written(reg, val),
    {
        if reg == 0 {
            self.irq_enabled = val & 0x80 != 0;
            self.loop_flag = val & 0x40 != 0;
            self.rate_index = val & 0x0F;
            assert(val & 0x0F < 16) by (bit_vector);
            self.timer_period = dmc_rate_table(self.rate_index);
            if !self.irq_enabled {
                self.irq_flag = false;
            }
        } else if reg == 1 {
            self.output_level = val & 0x7F;
        } else if reg == 2 {
            self.sample_address = 0xC000 + (val as u16) * 64;
        } else if reg == 3 {
            self.sample_length = (val as u16) * 16 + 1;
        }
    }

    /// Enable or disable the channel from a $4015 write: the IRQ flag clears;
    /// disabling drops the remaining bytes, enabling restarts an idle sample.
    pub fn set_enabled(&mut self, enabled: bool)
        ensures
            *final(self) == old(self).with_enabled(enabled),
    {
        self.enabled = enabled;
        self.irq_flag = false;
        if !enabled {
            self.bytes_remaining = 0;
        } else if self.bytes_remaining == 0 {
            self.restart();
        }
    }

    /// Current output level.
    pub fn output(&self) -> (r: u8)
        ensures
            r == self.output_level,
    {
        self.output_level
    }

    /// The number of sample bytes remaining.
    pub fn bytes_remaining(&self) -> (r: u16)
        ensures
            r == self.bytes_remaining,
    {
        self.bytes_remaining
    }
}

/// The output level stays within 0..=127 once it is there.
pub proof fn lemma_dmc_level_bounded(d: Dmc)
    requires
        d.output_level <= 127,
    ensures
        d.output_clocked().output_level <= 127,
        d.ticked().output_level <= 127,
{
}

/// What `save_state` writes, `load_state` reads back (with no fetch pending,
/// which is not saved).
pub proof fn lemma_dmc_roundtrip(d: Dmc, rest: Seq<u8>)
    requires
        d.sample_request is None,
    ensures
        Dmc::decoded(d.encoding() + rest) == d,
        (d.encoding() + rest).subrange(23, (d.encoding() + rest).len() as int) == rest,
{
    let s = d.encoding() + rest;
    let n = s.len() as int;
    assert(s.subrange(3, n) =~= le16(d.timer) + s.subrange(5, n));
    assert(s.subrange(5, n) =~= le16(d.timer_period) + s.subrange(7, n));
    assert(s.subrange(7, n) =~= le16(d.sample_address) + s.subrange(9, n));
    assert(s.subrange(9, n) =~= le16(d.sample_length) + s.subrange(11, n));
    assert(s.subrange(11, n) =~= le16(d.current_address) + s.subrange(13, n));
    assert(s.subrange(13, n) =~= le16(d.bytes_remaining) + s.subrange(15, n));
    crate::nes_cpu::state::lemma_le16_roundtrip(d.timer, s.subrange(5, n));
    crate::nes_cpu::state::lemma_le16_roundtrip(d.timer_period, s.subrange(7, n));
    crate::nes_cpu::state::lemma_le16_roundtrip(d.sample_address, s.subrange(9, n));
    crate::nes_cpu::state::lemma_le16_roundtrip(d.sample_length, s.subrange(11, n));
    crate::nes_cpu::state::lemma_le16_roundtrip(d.current_address, s.subrange(13, n));
    crate::nes_cpu::state::lemma_le16_roundtrip(d.bytes_remaining, s.subrange(15, n));
    assert(s.subrange(23, n) =~= rest);
}

} // verus!
