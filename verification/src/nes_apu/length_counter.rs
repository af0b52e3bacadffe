//! The length counter that silences a channel after a programmed duration.
use vstd::prelude::*;

use crate::nes_cpu::state::{read_bool, read_u8, write_bool, write_u8};

verus! {

/// Length counter lookup table, indexed by the upper five bits of a register write.
pub open spec fn length_table(index: int) -> u8 {
    seq![
        10u8, 254, 20, 2, 40, 4, 80, 6, 160, 8, 60, 10, 14, 12, 26, 14,
        12, 16, 24, 18, 48, 20, 96, 22, 192, 24, 72, 26, 16, 28, 32, 30,
    ][index]
}

/// The byte a boolean is saved as.
pub open spec fn bool_byte(b: bool) -> u8 {
    if b {
        1
    } else {
        0
    }
}

/// The entry `index` of the length table.
pub fn length_table_entry(index: u8) -> (r: u8)
    requires
        index < 32,
    ensures
        r == length_table(index as int),
{
    let table: [u8; 32] = [
        10, 254, 20, 2, 40, 4, 80, 6, 160, 8, 60, 10, 14, 12, 26, 14,
        12, 16, 24, 18, 48, 20, 96, 22, 192, 24, 72, 26, 16, 28, 32, 30,
    ];
    table[index as usize]
}

pub struct LengthCounter {
    pub counter: u8,
    pub halt: bool,
    pub enabled: bool,
}

impl LengthCounter {
    /// The counter after one half-frame clock: down by one unless halted or
    /// already zero.
    pub open spec fn clocked(self) -> Self {
        if !self.halt && self.counter > 0 {
            LengthCounter { counter: (self.counter - 1) as u8, ..self }
        } else {
            self
        }
    }

    /// The counter after its enable bit in $4015 is written; disabling clears it.
    pub open spec fn with_enabled(self, enabled: bool) -> Self {
        if enabled {
            LengthCounter { enabled: true, ..self }
        } else {
            LengthCounter { enabled: false, counter: 0, ..self }
        }
    }

    /// The bytes `save_state` appends.
    pub open spec fn encoding(self) -> Seq<u8> {
        seq![self.counter, bool_byte(self.halt), bool_byte(self.enabled)]
    }

    /// The counter that `load_state` reads from the front of `s`.
    pub open spec fn decoded(s: Seq<u8>) -> Self {
        LengthCounter { counter: s[0], halt: s[1] != 0, enabled: s[2] != 0 }
    }

    pub fn new() -> (r: Self)
        ensures
            r.counter == 0,
            !r.halt,
            !r.enabled,
    {
        LengthCounter { counter: 0, halt: false, enabled: false }
    }

    /// Clock the length counter (half-frame rate): count down unless halted
    /// or already zero.
    pub fn clock(&mut self)
        ensures
            *final(self) == old(self).clocked(),
    {
        if !self.halt && self.counter > 0 {
            self.counter = self.counter - 1;
        }
    }

    /// Load a new length from the lookup table (only while enabled).
    pub fn load(&mut self, index: u8)
        requires
            index < 32,
        ensures
            final(self).halt == old(self).halt,
            final(self).enabled == old(self).enabled,
            final(self).counter == if old(self).enabled {
                length_table(index as int)
            } else {
                old(self).counter
            },
    {
        if self.enabled {
            self.counter = length_table_entry(index);
        }
    }

    /// The channel produces output while the counter is nonzero.
    pub fn is_active(&self) -> (r: bool)
        ensures
            r == (self.counter > 0),
    {
        self.counter > 0
    }

    /// The channel's enable bit in $4015 was cleared: the counter drops to zero.
    pub fn disable(&mut self)
        ensures
            *final(self) == (LengthCounter { enabled: false, counter: 0, ..*old(self) }),
    {
        self.enabled = false;
        self.counter = 0;
    }

    /// The channel's enable bit in $4015 was set.
    pub fn enable(&mut self)
        ensures
            *final(self) == (LengthCounter { enabled: true, ..*old(self) }),
    {
        self.enabled = true;
    }

    pub fn save_state(&self, out: &mut Vec<u8>)
        ensures
            final(out)@ == old(out)@ + self.encoding(),
    {
        write_u8(out, self.counter);
        write_bool(out, self.halt);
        write_bool(out, self.enabled);
    }

    pub fn load_state(&mut self, cursor: &mut &[u8])
        requires
            old(cursor)@.len() >= 3,
        ensures
            *final(self) == Self::decoded(old(cursor)@),
            final(cursor)@ == old(cursor)@.subrange(3, old(cursor)@.len() as int),
    {
        self.counter = read_u8(cursor);
        self.halt = read_bool(cursor);
        self.enabled = read_bool(cursor);
    }

    /// Set the enable bit from a $4015 write; disabling clears the counter.
    pub fn set_enabled(&mut self, enabled: bool)
        ensures
            *final(self) == old(self).with_enabled(enabled),
    {
        if enabled {
            self.enable();
        } else {
            self.disable();
        }
    }
}

/// What `save_state` writes, `load_state` reads back.
pub proof fn lemma_length_counter_roundtrip(lc: LengthCounter, rest: Seq<u8>)
    ensures
        LengthCounter::decoded(lc.encoding() + rest) == lc,
        (lc.encoding() + rest).subrange(3, (lc.encoding() + rest).len() as int) == rest,
{
    assert((lc.encoding() + rest).subrange(3, (lc.encoding() + rest).len() as int) =~= rest);
}

} // verus!
