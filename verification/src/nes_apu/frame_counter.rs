//! The APU frame counter: divides APU cycles into quarter-frame (~240 Hz) and
//! half-frame (~120 Hz) clocks, and raises the frame IRQ in 4-step mode.
//!
//! 4-step mode: quarter frames at 3729, 7457, 11186 and 14915 APU cycles,
//! half frames at 7457 and 14915; the IRQ flag is set at 14914, 14915 and on
//! the first cycle of the next sequence, unless inhibited.
//! 5-step mode: quarter frames at 3729, 7457, 11186 and 18641, half frames
//! at 7457 and 18641, nothing at 14915, never an IRQ; writing $4017 with the
//! mode bit set clocks both units at once.
use vstd::prelude::*;

use crate::nes_apu::length_counter::bool_byte;
use crate::nes_cpu::state::{from_le16, le16, read_bool, read_u16, read_u8, write_bool, write_u16, write_u8};

verus! {

#[derive(Clone, Copy, Debug, PartialEq, Eq, Structural)]
pub enum Mode {
    FourStep,
    FiveStep,
}

/// What one frame counter step asks the channels to do.
#[derive(Clone, Copy, Debug)]
pub struct FrameEvent {
    /// Clock envelopes and the triangle's linear counter.
    pub quarter_frame: bool,
    /// Clock length counters and sweep units.
    pub half_frame: bool,
    /// Fire the frame IRQ (4-step mode only, when not inhibited).
    pub irq: bool,
}

pub open spec fn frame_event(quarter_frame: bool, half_frame: bool, irq: bool) -> FrameEvent {
    FrameEvent { quarter_frame, half_frame, irq }
}

pub struct FrameCounter {
    pub mode: Mode,
    pub irq_inhibit: bool,
    pub irq_flag: bool,
    /// APU cycle within the current sequence.
    pub cycle: u16,
    /// After a 4-step sequence resets, the IRQ flag is set one cycle more.
    pub new_sequence_irq: bool,
}

impl FrameCounter {
    /// The cycle counter is inside the current mode's sequence.
    pub open spec fn wf(self) -> bool {
        match self.mode {
            Mode::FourStep => self.cycle <= 14914,
            Mode::FiveStep => self.cycle <= 18640,
        }
    }

    /// The state and event of one APU-cycle tick.
    pub open spec fn ticked(self) -> (Self, Option<FrameEvent>) {
        let s1 = if self.new_sequence_irq {
            FrameCounter {
                new_sequence_irq: false,
                irq_flag: self.irq_flag || !self.irq_inhibit,
                ..self
            }
        } else {
            self
        };
        let c = (s1.cycle + 1) as u16;
        let s2 = FrameCounter { cycle: c, ..s1 };
        let irq = !s2.irq_inhibit;
        match s2.mode {
            Mode::FourStep => {
                if c == 3729 {
                    (s2, Some(frame_event(true, false, false)))
                } else if c == 7457 {
                    (s2, Some(frame_event(true, true, false)))
                } else if c == 11186 {
                    (s2, Some(frame_event(true, false, false)))
                } else if c == 14914 {
                    if irq {
                        (FrameCounter { irq_flag: true, ..s2 }, Some(frame_event(false, false, true)))
                    } else {
                        (s2, None)
                    }
                } else if c == 14915 {
                    (
                        FrameCounter {
                            irq_flag: s2.irq_flag || irq,
                            cycle: 0,
                            new_sequence_irq: irq,
                            ..s2
                        },
                        Some(frame_event(true, true, irq)),
                    )
                } else {
                    (s2, None)
                }
            },
            Mode::FiveStep => {
                if c == 3729 {
                    (s2, Some(frame_event(true, false, false)))
                } else if c == 7457 {
                    (s2, Some(frame_event(true, true, false)))
                } else if c == 11186 {
                    (s2, Some(frame_event(true, false, false)))
                } else if c == 18641 {
                    (FrameCounter { cycle: 0, ..s2 }, Some(frame_event(true, true, false)))
                } else {
                    (s2, None)
                }
            },
        }
    }

    /// The counter and immediate event after a $4017 write: mode and IRQ
    /// inhibit (which clears the IRQ flag) from the value, the sequence
    /// restarted, and in 5-step mode an immediate quarter- and half-frame.
    pub open spec fn written(self, val: u8) -> (Self, Option<FrameEvent>) {
        (
            FrameCounter {
                mode: if val & 0x80 != 0 {
                    Mode::FiveStep
                } else {
                    Mode::FourStep
                },
                irq_inhibit: val & 0x40 != 0,
                irq_flag: self.irq_flag && val & 0x40 == 0,
                cycle: 0,
                new_sequence_irq: false,
            },
            if val & 0x80 != 0 {
                Some(frame_event(true, true, false))
            } else {
                None
            },
        )
    }

    /// The bytes `save_state` appends.
    pub open spec fn encoding(self) -> Seq<u8> {
        seq![
            if self.mode == Mode::FourStep {
                0u8
            } else {
                1u8
            },
            bool_byte(self.irq_inhibit),
            bool_byte(self.irq_flag),
        ] + le16(self.cycle) + seq![bool_byte(self.new_sequence_irq)]
    }

    /// The counter `load_state` reads from the front of `s`.
    pub open spec fn decoded(s: Seq<u8>) -> Self {
        FrameCounter {
            mode: if s[0] == 0 {
                Mode::FourStep
            } else {
                Mode::FiveStep
            },
            irq_inhibit: s[1] != 0,
            irq_flag: s[2] != 0,
            cycle: from_le16(s.subrange(3, s.len() as int)),
            new_sequence_irq: s[5] != 0,
        }
    }

    /// Power-on state: 4-step mode, no IRQ, at the start of the sequence.
    pub open spec fn new_spec() -> Self {
        FrameCounter {
            mode: Mode::FourStep,
            irq_inhibit: false,
            irq_flag: false,
            cycle: 0,
            new_sequence_irq: false,
        }
    }

    pub fn new() -> (r: Self)
        ensures
            r == Self::new_spec(),
            r.wf(),
    {
        FrameCounter {
            mode: Mode::FourStep,
            irq_inhibit: false,
            irq_flag: false,
            cycle: 0,
            new_sequence_irq: false,
        }
    }

    pub fn save_state(&self, out: &mut Vec<u8>)
        ensures
            final(out)@ == old(out)@ + self.encoding(),
    {
        let ghost start = out@;
        let code: u8 = if self.mode == Mode::FourStep {
            0
        } else {
            1
        };
        write_u8(out, code);
        write_bool(out, self.irq_inhibit);
        write_bool(out, self.irq_flag);
        write_u16(out, self.cycle);
        write_bool(out, self.new_sequence_irq);
        assert(out@ =~= start + self.encoding());
    }

    pub fn load_state(&mut self, cursor: &mut &[u8])
        requires
            old(cursor)@.len() >= 6,
        ensures
            *final(self) == Self::decoded(old(cursor)@),
            final(cursor)@ == old(cursor)@.subrange(6, old(cursor)@.len() as int),
    {
        let ghost s = cursor@;
        self.mode = if read_u8(cursor) == 0 {
            Mode::FourStep
        } else {
            Mode::FiveStep
        };
        self.irq_inhibit = read_bool(cursor);
        self.irq_flag = read_bool(cursor);
        assert(cursor@ =~= s.subrange(3, s.len() as int));
        self.cycle = read_u16(cursor);
        self.new_sequence_irq = read_bool(cursor);
        assert(cursor@ =~= s.subrange(6, s.len() as int));
    }

    /// Write $4017: select the mode and IRQ inhibit (which clears the IRQ
    /// flag) and restart the sequence. 5-step mode returns an immediate
    /// quarter- and half-frame clock, which the caller applies.
    pub fn write(&mut self, val: u8) -> (r: Option<FrameEvent>)
        ensures
            (*final(self), r) == old(self).written(val),
            final(self).wf(),
    {
        self.mode = if val & 0x80 != 0 {
            Mode::FiveStep
        } else {
            Mode::FourStep
        };
        self.irq_inhibit = val & 0x40 != 0;
        if self.irq_inhibit {
            self.irq_flag = false;
        }
        self.cycle = 0;
        self.new_sequence_irq = false;

        if self.mode == Mode::FiveStep {
            Some(FrameEvent { quarter_frame: true, half_frame: true, irq: false })
        } else {
            None
        }
    }

    /// Tick one APU cycle (every other CPU cycle); returns the event of a
    /// step boundary, if one is reached.
    pub fn tick(&mut self) -> (r: Option<FrameEvent>)
        requires
            old(self).cycle < 0xFFFF,
        ensures
            (*final(self), r) == old(self).ticked(),
            old(self).wf() ==> final(self).wf(),
    {
        if self.new_sequence_irq {
            self.new_sequence_irq = false;
            if !self.irq_inhibit {
                self.irq_flag = true;
            }
        }

        self.cycle = self.cycle + 1;

        match self.mode {
            Mode::FourStep => self.tick_four_step(),
            Mode::FiveStep => self.tick_five_step(),
        }
    }

    fn tick_four_step(&mut self) -> (r: Option<FrameEvent>)
        requires
            old(self).mode == Mode::FourStep,
        ensures
            (*final(self), r) == (match old(self).cycle {
                3729 => (*old(self), Some(frame_event(true, false, false))),
                7457 => (*old(self), Some(frame_event(true, true, false))),
                11186 => (*old(self), Some(frame_event(true, false, false))),
                14914 => if !old(self).irq_inhibit {
                    (
                        FrameCounter { irq_flag: true, ..*old(self) },
                        Some(frame_event(false, false, true)),
                    )
                } else {
                    (*old(self), None)
                },
                14915 => (
                    FrameCounter {
                        irq_flag: old(self).irq_flag || !old(self).irq_inhibit,
                        cycle: 0,
                        new_sequence_irq: !old(self).irq_inhibit,
                        ..*old(self)
                    },
                    Some(frame_event(true, true, !old(self).irq_inhibit)),
                ),
                _ => (*old(self), None),
            }),
    {
        match self.cycle {
            3729 => Some(FrameEvent { quarter_frame: true, half_frame: false, irq: false }),
            7457 => Some(FrameEvent { quarter_frame: true, half_frame: true, irq: false }),
            11186 => Some(FrameEvent { quarter_frame: true, half_frame: false, irq: false }),
            14914 => {
                let irq = !self.irq_inhibit;
                if irq {
                    self.irq_flag = true;
                }
                if irq {
                    Some(FrameEvent { quarter_frame: false, half_frame: false, irq: true })
                } else {
                    None
                }
            },
            14915 => {
                let irq = !self.irq_inhibit;
                if irq {
                    self.irq_flag = true;
                }
                self.cycle = 0;
                self.new_sequence_irq = !self.irq_inhibit;
                Some(FrameEvent { quarter_frame: true, half_frame: true, irq })
            },
            _ => None,
        }
    }

    fn tick_five_step(&mut self) -> (r: Option<FrameEvent>)
        requires
            old(self).mode == Mode::FiveStep,
        ensures
            (*final(self), r) == (match old(self).cycle {
                3729 => (*old(self), Some(frame_event(true, false, false))),
                7457 => (*old(self), Some(frame_event(true, true, false))),
                11186 => (*old(self), Some(frame_event(true, false, false))),
                18641 => (
                    FrameCounter { cycle: 0, ..*old(self) },
                    Some(frame_event(true, true, false)),
                ),
                _ => (*old(self), None),
            }),
    {
        match self.cycle {
            3729 => Some(FrameEvent { quarter_frame: true, half_frame: false, irq: false }),
            7457 => Some(FrameEvent { quarter_frame: true, half_frame: true, irq: false }),
            11186 => Some(FrameEvent { quarter_frame: true, half_frame: false, irq: false }),
            14915 => None,
            18641 => {
                self.cycle = 0;
                Some(FrameEvent { quarter_frame: true, half_frame: true, irq: false })
            },
            _ => None,
        }
    }
}

/// What `save_state` writes, `load_state` reads back.
pub proof fn lemma_frame_counter_roundtrip(fc: FrameCounter, rest: Seq<u8>)
    ensures
        FrameCounter::decoded(fc.encoding() + rest) == fc,
        (fc.encoding() + rest).subrange(6, (fc.encoding() + rest).len() as int) == rest,
{
    let s = fc.encoding() + rest;
    assert(s.subrange(3, s.len() as int) =~= le16(fc.cycle) + s.subrange(5, s.len() as int));
    crate::nes_cpu::state::lemma_le16_roundtrip(fc.cycle, s.subrange(5, s.len() as int));
    assert(s.subrange(6, s.len() as int) =~= rest);
}

/// The state after `n` ticks.
pub open spec fn ticks(fc: FrameCounter, n: nat) -> FrameCounter
    decreases n,
{
    if n == 0 {
        fc
    } else {
        ticks(fc, (n - 1) as nat).ticked().0
    }
}

/// 5-step mode never raises the IRQ flag or an IRQ event.
pub proof fn lemma_five_step_no_irq(fc: FrameCounter)
    requires
        fc.mode == Mode::FiveStep,
        !fc.new_sequence_irq,
        !fc.irq_flag,
    ensures
        !fc.ticked().0.irq_flag,
        !fc.ticked().0.new_sequence_irq,
        fc.ticked().0.mode == Mode::FiveStep,
        fc.ticked().1 matches Some(e) ==> !e.irq,
{
}

/// With IRQs inhibited the flag is never raised and no event carries an IRQ.
pub proof fn lemma_inhibit_no_irq(fc: FrameCounter)
    requires
        fc.irq_inhibit,
        !fc.irq_flag,
    ensures
        !fc.ticked().0.irq_flag,
        fc.ticked().0.irq_inhibit,
        fc.ticked().1 matches Some(e) ==> !e.irq,
{
}

/// With IRQs inhibited and the flag clear, no number of ticks raises the
/// flag, and no tick along the way returns an event that carries an IRQ.
pub proof fn lemma_inhibit_no_irq_ever(fc: FrameCounter, n: nat)
    requires
        fc.irq_inhibit,
        !fc.irq_flag,
    ensures
        !ticks(fc, n).irq_flag,
        ticks(fc, n).irq_inhibit,
        forall|k: nat| k <= n ==> (#[trigger] ticks(fc, k).ticked().1 matches Some(e) ==> !e.irq),
    decreases n,
{
    if n > 0 {
        lemma_inhibit_no_irq_ever(fc, (n - 1) as nat);
    }
    lemma_inhibit_no_irq(ticks(fc, n));
    assert forall|k: nat| k <= n implies (#[trigger] ticks(fc, k).ticked().1 matches Some(e)
        ==> !e.irq) by {
        if k < n {
            lemma_inhibit_no_irq_ever(fc, k);
        }
    }
}

/// A sequence started at cycle 0 counts up one cycle per tick until it
/// resets: after 14915 ticks in 4-step mode (18641 in 5-step mode) it is
/// back at cycle 0, keeping its mode and inhibit setting.
pub proof fn lemma_sequence_period(fc: FrameCounter, n: nat)
    requires
        fc.cycle == 0,
        n <= match fc.mode {
            Mode::FourStep => 14914nat,
            Mode::FiveStep => 18640nat,
        },
    ensures
        ticks(fc, n).cycle == n,
        ticks(fc, n).mode == fc.mode,
        ticks(fc, n).irq_inhibit == fc.irq_inhibit,
        n == (match fc.mode {
            Mode::FourStep => 14914nat,
            Mode::FiveStep => 18640nat,
        }) ==> ticks(fc, n + 1).cycle == 0,
    decreases n,
{
    if n > 0 {
        lemma_sequence_period(fc, (n - 1) as nat);
    }
    assert(ticks(fc, n + 1) == ticks(fc, n).ticked().0);
}

} // verus!
