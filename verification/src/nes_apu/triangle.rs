//! The triangle channel.
use vstd::prelude::*;

use crate::nes_apu::length_counter::{bool_byte, length_table, LengthCounter};
use crate::nes_apu::pulse::{length_index, lemma_length_index, with_timer_high, with_timer_low};
use crate::nes_cpu::state::{
    from_le16, le16, read_bool, read_u16, read_u8, write_bool, write_u16, write_u8,
};

verus! {

/// Step `pos` of the 32-step triangle waveform: 15 down to 0, then 0 up to 15.
pub open spec fn triangle_step(pos: int) -> u8 {
    if pos < 16 {
        (15 - pos) as u8
    } else {
        (pos - 16) as u8
    }
}

/// Step `pos` of the triangle waveform.
pub fn triangle_sequence(pos: u8) -> (r: u8)
    requires
        pos < 32,
    ensures
        r == triangle_step(pos as int),
{
    let table: [u8; 32] = [
        15, 14, 13, 12, 11, 10, 9, 8, 7, 6, 5, 4, 3, 2, 1, 0,
        0, 1, 2, 3, 4, 5, 6, 7, 8, 9, 10, 11, 12, 13, 14, 15,
    ];
    table[pos as usize]
}

pub struct Triangle {
    pub timer_period: u16,
    pub timer: u16,
    pub sequencer_pos: u8,
    pub length_counter: LengthCounter,
    pub linear_counter: u8,
    pub linear_counter_reload_value: u8,
    pub linear_counter_reload_flag: bool,
    /// Also halts the length counter.
    pub control_flag: bool,
}

impl Triangle {
    pub open spec fn wf(self) -> bool {
        self.sequencer_pos < 32
    }

    /// The bytes `save_state` appends.
    pub open spec fn encoding(self) -> Seq<u8> {
        le16(self.timer_period) + le16(self.timer) + seq![self.sequencer_pos]
            + self.length_counter.encoding() + seq![
            self.linear_counter,
            self.linear_counter_reload_value,
            bool_byte(self.linear_counter_reload_flag),
            bool_byte(self.control_flag),
        ]
    }

    /// The channel `load_state` reads from the front of `s`.
    pub open spec fn decoded(s: Seq<u8>) -> Self {
        Triangle {
            timer_period: from_le16(s),
            timer: from_le16(s.subrange(2, s.len() as int)),
            sequencer_pos: s[4],
            length_counter: LengthCounter::decoded(s.subrange(5, s.len() as int)),
            linear_counter: s[8],
            linear_counter_reload_value: s[9],
            linear_counter_reload_flag: s[10] != 0,
            control_flag: s[11] != 0,
        }
    }

    /// The channel after one quarter-frame clock of its linear counter.
    pub open spec fn linear_clocked(self) -> Self {
        Triangle {
            linear_counter: if self.linear_counter_reload_flag {
                self.linear_counter_reload_value
            } else if self.linear_counter > 0 {
                (self.linear_counter - 1) as u8
            } else {
                self.linear_counter
            },
            linear_counter_reload_flag: self.linear_counter_reload_flag && self.control_flag,
            ..self
        }
    }

    /// The channel after one timer tick (every CPU cycle): an expired timer
    /// reloads, and the sequencer advances only while both the linear and
    /// length counters are nonzero.
    pub open spec fn ticked(self) -> Self {
        if self.timer == 0 {
            Triangle {
                timer: self.timer_period,
                sequencer_pos: if self.linear_counter > 0 && self.length_counter.counter > 0 {
                    ((self.sequencer_pos + 1) % 32) as u8
                } else {
                    self.sequencer_pos
                },
                ..self
            }
        } else {
            Triangle { timer: (self.timer - 1) as u16, ..self }
        }
    }

    /// The channel after writing `val` to its register `reg` (0-3).
    pub open spec fn written(self, reg: u8, val: u8) -> Self {
        if reg == 0 {
            Triangle {
                control_flag: val & 0x80 != 0,
                length_counter: LengthCounter { halt: val & 0x80 != 0, ..self.length_counter },
                linear_counter_reload_value: val & 0x7F,
                ..self
            }
        } else if reg == 2 {
            Triangle { timer_period: with_timer_low(self.timer_period, val), ..self }
        } else if reg == 3 {
            Triangle {
                timer_period: with_timer_high(self.timer_period, val),
                length_counter: LengthCounter {
                    counter: if self.length_counter.enabled {
                        length_table(length_index(val) as int)
                    } else {
                        self.length_counter.counter
                    },
                    ..self.length_counter
                },
                linear_counter_reload_flag: true,
                ..self
            }
        } else {
            self
        }
    }

    pub fn new() -> (r: Self)
        ensures
            r == (Triangle {
                timer_period: 0,
                timer: 0,
                sequencer_pos: 0,
                length_counter: LengthCounter { counter: 0, halt: false, enabled: false },
                linear_counter: 0,
                linear_counter_reload_value: 0,
                linear_counter_reload_flag: false,
                control_flag: false,
            }),
            r.wf(),
    {
        Triangle {
            timer_period: 0,
            timer: 0,
            sequencer_pos: 0,
            length_counter: LengthCounter::new(),
            linear_counter: 0,
            linear_counter_reload_value: 0,
            linear_counter_reload_flag: false,
            control_flag: false,
        }
    }

    /// Tick the timer (every CPU cycle): when it expires it reloads, and the
    /// sequencer advances only while both the linear and length counters are
    /// nonzero.
    pub fn tick(&mut self)
        ensures
            *final(self) == old(self).ticked(),
            old(self).wf() ==> final(self).wf(),
    {
        if self.timer == 0 {
            self.timer = self.timer_period;
            if self.linear_counter > 0 && self.length_counter.is_active() {
                self.sequencer_pos = ((self.sequencer_pos as u16 + 1) % 32) as u8;
            }
        } else {
            self.timer = self.timer - 1;
        }
    }

    /// Current output sample: the waveform step at the sequencer position
    /// (the counters gate advancement, not the output).
    pub fn output(&self) -> (r: u8)
        requires
            self.wf(),
        ensures
            r == triangle_step(self.sequencer_pos as int),
            r <= 15,
    {
        triangle_sequence(self.sequencer_pos)
    }

    /// Clock the linear counter (quarter-frame rate).
    pub fn clock_linear_counter(&mut self)
        ensures
            *final(self) == old(self).linear_clocked(),
    {
        if self.linear_counter_reload_flag {
            self.linear_counter = self.linear_counter_reload_value;
        } else if self.linear_counter > 0 {
            self.linear_counter = self.linear_counter - 1;
        }
        if !self.control_flag {
            self.linear_counter_reload_flag = false;
        }
    }

    pub fn save_state(&self, out: &mut Vec<u8>)
        ensures
            final(out)@ == old(out)@ + self.encoding(),
    {
        let ghost start = out@;
        write_u16(out, self.timer_period);
        write_u16(out, self.timer);
        write_u8(out, self.sequencer_pos);
        self.length_counter.save_state(out);
        write_u8(out, self.linear_counter);
        write_u8(out, self.linear_counter_reload_value);
        write_bool(out, self.linear_counter_reload_flag);
        write_bool(out, self.control_flag);
        assert(out@ =~= start + self.encoding());
    }

    pub fn load_state(&mut self, cursor: &mut &[u8])
        requires
            old(cursor)@.len() >= 12,
        ensures
            *final(self) == Self::decoded(old(cursor)@),
            final(cursor)@ == old(cursor)@.subrange(12, old(cursor)@.len() as int),
    {
        let ghost s = cursor@;
        self.timer_period = read_u16(cursor);
        self.timer = read_u16(cursor);
        self.sequencer_pos = read_u8(cursor);
        self.length_counter.load_state(cursor);
        self.linear_counter = read_u8(cursor);
        self.linear_counter_reload_value = read_u8(cursor);
        self.linear_counter_reload_flag = read_bool(cursor);
        self.control_flag = read_bool(cursor);
        proof {
            assert(s.subrange(2, s.len() as int).subrange(2, s.len() - 2) =~= s.subrange(
                4,
                s.len() as int,
            ));
            assert(s.subrange(5, s.len() as int) =~= s.subrange(4, s.len() as int).subrange(
                1,
                s.len() - 4,
            ));
            assert(cursor@ =~= s.subrange(12, s.len() as int));
        }
    }

    /// Write register `reg` (0-3) relative to $4008.
    pub fn write_reg(&mut self, reg: u8, val: u8)
        requires
            old(self).wf(),
        ensures
            final(self).wf(),
            *final(self) == old(self).written(reg, val),
    {
        if reg == 0 {
            self.control_flag = val & 0x80 != 0;
            self.length_counter.halt = self.control_flag;
            self.linear_counter_reload_value = val & 0x7F;
        } else if reg == 2 {
            self.timer_period = (self.timer_period & 0x0700) | val as u16;
        } else if reg == 3 {
            self.timer_period = (self.timer_period & 0x00FF) | ((val as u16 & 0x07) << 8);
            proof {
                lemma_length_index(val);
            }
            self.length_counter.load((val >> 3) & 0x1F);
            self.linear_counter_reload_flag = true;
        }
    }
}

/// What `save_state` writes, `load_state` reads back.
pub proof fn lemma_triangle_roundtrip(t: Triangle, rest: Seq<u8>)
    ensures
        Triangle::decoded(t.encoding() + rest) == t,
        (t.encoding() + rest).subrange(12, (t.encoding() + rest).len() as int) == rest,
{
    let s = t.encoding() + rest;
    crate::nes_cpu::state::lemma_le16_roundtrip(t.timer_period, s.subrange(2, s.len() as int));
    assert(s =~= le16(t.timer_period) + s.subrange(2, s.len() as int));
    crate::nes_cpu::state::lemma_le16_roundtrip(t.timer, s.subrange(4, s.len() as int));
    assert(s.subrange(2, s.len() as int) =~= le16(t.timer) + s.subrange(4, s.len() as int));
    assert(s.subrange(5, s.len() as int) =~= t.length_counter.encoding() + s.subrange(
        8,
        s.len() as int,
    ));
    crate::nes_apu::length_counter::lemma_length_counter_roundtrip(
        t.length_counter,
        s.subrange(8, s.len() as int),
    );
    assert(s.subrange(12, s.len() as int) =~= rest);
}

} // verus!
