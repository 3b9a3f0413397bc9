//! The sound peripheral's cycle-budget glue. Channel synthesis is a host
//! concern; the core only accounts for the cycle budget the peripheral
//! consumes, so that a resumed snapshot keeps identical timing.

use vstd::prelude::*;

verus! {

/// Cycle accounting for the sound peripheral.
#[derive(Clone, Copy, Debug, PartialEq, Eq, Structural)]
pub struct Sound {
    /// Whether sound output is enabled.
    pub on: bool,
    /// Cycles consumed since the host last drained samples.
    pub cycle_accum: u32,
}

impl Sound {
    /// A sound peripheral that is switched off.
    pub fn new() -> (r: Sound)
        ensures
            r == (Sound { on: false, cycle_accum: 0 }),
    {
        Sound { on: false, cycle_accum: 0 }
    }

    /// Consumes a cycle budget: accumulates while switched on.
    pub fn advance(&mut self, cycles: u8)
        ensures
            old(self).on ==> *final(self) == (Sound {
                cycle_accum: old(self).cycle_accum.wrapping_add(cycles as u32),
                ..*old(self)
            }),
            !old(self).on ==> *final(self) == *old(self),
    {
        if self.on {
            self.cycle_accum = self.cycle_accum.wrapping_add(cycles as u32);
        }
    }

    /// Drains the accumulated budget, as the host does when it consumes the
    /// pending samples.
    pub fn sync(&mut self)
        ensures
            *final(self) == (Sound { cycle_accum: 0, ..*old(self) }),
    {
        self.cycle_accum = 0;
    }
}

} // verus!
