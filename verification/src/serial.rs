//! The serial transfer peripheral. With no link partner attached, starting a
//! transfer completes instantly and raises the serial interrupt request.

use vstd::prelude::*;

verus! {

/// Serial transfer registers: data at `0xFF01`, control at `0xFF02`. The
/// `interrupt` field collects a raised serial request bit until the address
/// space folds it into the interrupt-request register.
#[derive(Clone, Copy, Debug, PartialEq, Eq, Structural)]
pub struct Serial {
    /// Transfer data register.
    pub data: u8,
    /// Transfer control register.
    pub control: u8,
    /// Pending interrupt-request bits raised by this peripheral.
    pub interrupt: u8,
}

impl Serial {
    /// A serial peripheral with cleared registers and no pending request.
    pub fn new() -> (r: Serial)
        ensures
            r == (Serial { data: 0, control: 0, interrupt: 0 }),
    {
        Serial { data: 0, control: 0, interrupt: 0 }
    }

    /// Writes a serial register. Writing a control value whose start and
    /// internal-clock bits are both set (`v & 0x81 == 0x81`) completes the
    /// transfer at once and raises the serial request bit.
    pub fn wb(&mut self, a: u16, v: u8)
        requires
            a == 0xFF01 || a == 0xFF02,
        ensures
            a == 0xFF01 ==> *final(self) == (Serial { data: v, ..*old(self) }),
            a == 0xFF02 && v & 0x81 == 0x81 ==> *final(self) == (Serial {
                control: v,
                interrupt: 0x8,
                ..*old(self)
            }),
            a == 0xFF02 && v & 0x81 != 0x81 ==> *final(self) == (Serial {
                control: v,
                ..*old(self)
            }),
    {
        if a == 0xFF01 {
            self.data = v;
        } else {
            self.control = v;
            if v & 0x81 == 0x81 {
                // No link partner: emulate an instant transfer completion.
                self.interrupt = 0x8;
            }
        }
    }

    /// Reads a serial register. The unused bits of the control register read
    /// back as ones.
    pub fn rb(&self, a: u16) -> (r: u8)
        requires
            a == 0xFF01 || a == 0xFF02,
        ensures
            a == 0xFF01 ==> r == self.data,
            a == 0xFF02 ==> r == self.control | 0x7E,
    {
        if a == 0xFF01 {
            self.data
        } else {
            self.control | 0x7E
        }
    }
}

} // verus!
