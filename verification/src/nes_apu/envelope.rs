//! The envelope unit shared by the pulse and noise channels: a 4-bit volume
//! that either stays constant or decays over time.
use vstd::prelude::*;

verus! {

pub struct Envelope {
    pub start: bool,
    pub loop_flag: bool,
    pub constant_volume: bool,
    pub divider_period: u8,
    pub divider: u8,
    pub decay_level: u8,
}

impl Envelope {
    /// Period and decay level fit in four bits.
    pub open spec fn wf(self) -> bool {
        self.divider_period <= 15 && self.decay_level <= 15
    }

    /// The envelope after one quarter-frame clock: a pending start reloads
    /// the decay level to 15; otherwise the divider counts down and, when it
    /// expires, reloads and steps the decay level down (wrapping to 15 when
    /// looping).
    pub open spec fn clocked(self) -> Self {
        if self.start {
            Envelope { start: false, decay_level: 15, divider: self.divider_period, ..self }
        } else if self.divider == 0 {
            Envelope {
                divider: self.divider_period,
                decay_level: if self.decay_level > 0 {
                    (self.decay_level - 1) as u8
                } else if self.loop_flag {
                    15
                } else {
                    self.decay_level
                },
                ..self
            }
        } else {
            Envelope { divider: (self.divider - 1) as u8, ..self }
        }
    }

    pub open spec fn volume_spec(self) -> u8 {
        if self.constant_volume {
            self.divider_period
        } else {
            self.decay_level
        }
    }

    /// The power-on envelope: everything cleared.
    pub open spec fn new_spec() -> Self {
        Envelope {
            start: false,
            loop_flag: false,
            constant_volume: false,
            divider_period: 0,
            divider: 0,
            decay_level: 0,
        }
    }

    pub fn new() -> (r: Self)
        ensures
            r == Self::new_spec(),
            r.wf(),
    {
        Envelope {
            start: false,
            loop_flag: false,
            constant_volume: false,
            divider_period: 0,
            divider: 0,
            decay_level: 0,
        }
    }

    /// Clock the envelope (quarter-frame rate).
    pub fn clock(&mut self)
        ensures
            *final(self) == old(self).clocked(),
            old(self).wf() ==> final(self).wf(),
    {
        if self.start {
            self.start = false;
            self.decay_level = 15;
            self.divider = self.divider_period;
        } else if self.divider == 0 {
            self.divider = self.divider_period;
            if self.decay_level > 0 {
                self.decay_level = self.decay_level - 1;
            } else if self.loop_flag {
                self.decay_level = 15;
            }
        } else {
            self.divider = self.divider - 1;
        }
    }

    /// Current volume output (0-15 for a well-formed envelope).
    pub fn volume(&self) -> (r: u8)
        ensures
            r == self.volume_spec(),
            self.wf() ==> r <= 15,
    {
        if self.constant_volume {
            self.divider_period
        } else {
            self.decay_level
        }
    }

    /// Write bits from register 0 of a channel ($4000/$4004/$400C).
    pub fn write(&mut self, val: u8)
        ensures
            *final(self) == (Envelope {
                constant_volume: val & 0x10 != 0,
                loop_flag: val & 0x20 != 0,
                divider_period: val & 0x0F,
                ..*old(self)
            }),
            old(self).wf() ==> final(self).wf(),
    {
        self.constant_volume = val & 0x10 != 0;
        self.loop_flag = val & 0x20 != 0;
        self.divider_period = val & 0x0F;
        assert(val & 0x0F <= 15) by (bit_vector);
    }
}

} // verus!
