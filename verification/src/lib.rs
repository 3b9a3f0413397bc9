//! Cycle-stepped emulator core for the Sharp SM83 (Game-Boy-family) CPU:
//! register file, banked memory-mapped address space with cartridge
//! bank-controller emulation, interrupt controller, cycle-budgeted
//! peripherals (timer, pixel processor, sound, serial) and a snapshot codec.
//!
//! Presentation, audio output, file handling and process startup are host
//! concerns and live outside this crate; the core performs no I/O.

pub mod codec;
pub mod config;
pub mod cpu;
pub mod device;
pub mod gpu;
pub mod input;
pub mod interrupts;
pub mod keypad;
pub mod mmu;
pub mod registers;
pub mod serial;
pub mod sound;
pub mod timer;

use vstd::prelude::*;

verus! {

/// A typed failure of the core: a cartridge image that fails validation, a
/// snapshot blob that cannot be restored, or an opcode the engine does not
/// decode, with the opcode byte and the address it was fetched from.
#[derive(Clone, Copy, Debug, PartialEq, Eq, Structural)]
pub enum CoreError {
    /// The cartridge image fails checksum or is too short for a valid header.
    InvalidCartridge,
    /// A snapshot blob is malformed; the prior state is left untouched.
    CorruptState,
    /// The engine fetched an opcode it does not decode; execution must stop.
    UnknownOpcode(u8, u16),
}

} // verus!
