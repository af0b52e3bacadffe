//! The sweep unit of the pulse channels, which bends the timer period up or
//! down. Pulse 1 and pulse 2 negate differently.
use vstd::prelude::*;

use crate::nes_apu::length_counter::bool_byte;
use crate::nes_cpu::state::{read_bool, read_u8, write_bool, write_u8};

verus! {

#[derive(Clone, Copy, PartialEq, Eq, Structural)]
pub enum NegateMode {
    /// Pulse 1: ones' complement (subtracts one more).
    OnesComplement,
    /// Pulse 2: twos' complement (plain negation).
    TwosComplement,
}

pub struct Sweep {
    pub enabled: bool,
    pub period: u8,
    pub negate: bool,
    pub shift: u8,
    pub reload: bool,
    pub negate_mode: NegateMode,
    pub divider: u8,
}

impl Sweep {
    /// The period the sweep would move `current` to: `current` plus or minus
    /// `current >> shift`, minus one more in ones'-complement mode, wrapping
    /// at 16 bits.
    pub open spec fn target(self, current: u16) -> u16 {
        let change = current >> self.shift;
        if self.negate {
            let neg: int = match self.negate_mode {
                NegateMode::OnesComplement => (change + 1) % 65536,
                NegateMode::TwosComplement => change as int,
            };
            ((current - neg + 65536) % 65536) as u16
        } else {
            ((current + change) % 65536) as u16
        }
    }

    /// The channel is muted when the period is below 8 or the target above $7FF.
    pub open spec fn mutes(self, current: u16) -> bool {
        current < 8 || self.target(current) > 0x7FF
    }

    /// The new timer period one half-frame clock produces, if any.
    pub open spec fn clock_result(self, current: u16) -> Option<u16> {
        if self.divider == 0 && self.enabled && !self.mutes(current) && self.shift > 0 {
            Some(self.target(current))
        } else {
            None
        }
    }

    /// The unit after one half-frame clock: the divider reloads when it
    /// expired or a reload is pending, and otherwise counts down.
    pub open spec fn clocked(self) -> Self {
        if self.divider == 0 || self.reload {
            Sweep { divider: self.period, reload: false, ..self }
        } else {
            Sweep { divider: (self.divider - 1) as u8, ..self }
        }
    }

    /// The bytes `save_state` appends.
    pub open spec fn encoding(self) -> Seq<u8> {
        seq![
            bool_byte(self.enabled),
            self.period,
            bool_byte(self.negate),
            self.shift,
            bool_byte(self.reload),
            self.divider,
        ]
    }

    /// The fields `load_state` reads from the front of `s`.
    pub open spec fn decoded(self, s: Seq<u8>) -> Self {
        Sweep {
            enabled: s[0] != 0,
            period: s[1],
            negate: s[2] != 0,
            shift: s[3],
            reload: s[4] != 0,
            divider: s[5],
            ..self
        }
    }

    pub fn new(negate_mode: NegateMode) -> (r: Self)
        ensures
            r == (Sweep {
                enabled: false,
                period: 0,
                negate: false,
                shift: 0,
                reload: false,
                negate_mode,
                divider: 0,
            }),
    {
        Sweep { enabled: false, period: 0, negate: false, shift: 0, reload: false, negate_mode, divider: 0 }
    }

    pub fn save_state(&self, out: &mut Vec<u8>)
        ensures
            final(out)@ == old(out)@ + self.encoding(),
    {
        write_bool(out, self.enabled);
        write_u8(out, self.period);
        write_bool(out, self.negate);
        write_u8(out, self.shift);
        write_bool(out, self.reload);
        write_u8(out, self.divider);
    }

    pub fn load_state(&mut self, cursor: &mut &[u8])
        requires
            old(cursor)@.len() >= 6,
        ensures
            *final(self) == old(self).decoded(old(cursor)@),
            final(cursor)@ == old(cursor)@.subrange(6, old(cursor)@.len() as int),
    {
        self.enabled = read_bool(cursor);
        self.period = read_u8(cursor);
        self.negate = read_bool(cursor);
        self.shift = read_u8(cursor);
        self.reload = read_bool(cursor);
        self.divider = read_u8(cursor);
    }

    /// Write the sweep register ($4001/$4005).
    pub fn write(&mut self, val: u8)
        ensures
            *final(self) == (Sweep {
                enabled: val & 0x80 != 0,
                period: (val >> 4u8) & 0x07,
                negate: val & 0x08 != 0,
                shift: val & 0x07,
                reload: true,
                ..*old(self)
            }),
            final(self).shift < 8,
    {
        self.enabled = val & 0x80 != 0;
        self.period = (val >> 4) & 0x07;
        self.negate = val & 0x08 != 0;
        self.shift = val & 0x07;
        self.reload = true;
        assert(val & 0x07 < 8) by (bit_vector);
    }

    /// The target period for the current timer period.
    pub fn target_period(&self, current_period: u16) -> (r: u16)
        requires
            self.shift < 16,
        ensures
            r == self.target(current_period),
    {
        let change = current_period >> self.shift;
        if self.negate {
            let neg = match self.negate_mode {
                NegateMode::OnesComplement => change.wrapping_add(1),
                NegateMode::TwosComplement => change,
            };
            current_period.wrapping_sub(neg)
        } else {
            current_period.wrapping_add(change)
        }
    }

    /// Whether the sweep mutes the channel.
    pub fn muting(&self, current_period: u16) -> (r: bool)
        requires
            self.shift < 16,
        ensures
            r == self.mutes(current_period),
    {
        current_period < 8 || self.target_period(current_period) > 0x7FF
    }

    /// Clock the sweep unit (half-frame rate); returns the new timer period
    /// when it changes.
    pub fn clock(&mut self, current_period: u16) -> (r: Option<u16>)
        requires
            old(self).shift < 16,
        ensures
            r == old(self).clock_result(current_period),
            *final(self) == old(self).clocked(),
    {
        let mut new_period = None;

        if self.divider == 0 && self.enabled && !self.muting(current_period) && self.shift > 0 {
            let target = self.target_period(current_period);
            new_period = Some(target);
        }

        if self.divider == 0 || self.reload {
            self.divider = self.period;
            self.reload = false;
        } else {
            self.divider = self.divider - 1;
        }

        new_period
    }
}

/// What `save_state` writes, `load_state` reads back.
pub proof fn lemma_sweep_roundtrip(s: Sweep, into: Sweep, rest: Seq<u8>)
    requires
        into.negate_mode == s.negate_mode,
    ensures
        into.decoded(s.encoding() + rest) == s,
        (s.encoding() + rest).subrange(6, (s.encoding() + rest).len() as int) == rest,
{
    assert((s.encoding() + rest).subrange(6, (s.encoding() + rest).len() as int) =~= rest);
}

/// With a nonzero shift, the sweep moves a nonzero period up without
/// negation (unless the sum wraps past 16 bits) and never up with negation.
pub proof fn lemma_sweep_direction(s: Sweep, current: u16)
    requires
        s.shift > 0,
        current > 0,
    ensures
        !s.negate && current as int + (current >> s.shift) as int <= 0xFFFF ==> s.target(current)
            >= current,
        s.negate ==> s.target(current) <= current,
{
    let sh = s.shift;
    assert(sh > 0 ==> (current >> sh) <= current / 2) by (bit_vector);
}

} // verus!
