//! The SM83 register file: seven 8-bit registers, the flags byte, the stack
//! pointer and the program counter, with 16-bit pair composition.

use vstd::prelude::*;

verus! {

/// One of the four condition bits of the flags byte. Only the high nibble of
/// the flags byte carries information; its low nibble is always zero after a
/// pair write to AF.
#[derive(Clone, Copy, Debug, PartialEq, Eq, Structural)]
pub enum Flag {
    /// Result was zero.
    Z,
    /// Last operation was a subtraction.
    N,
    /// Carry or borrow out of the low nibble (or low 12 bits for 16-bit adds).
    H,
    /// Carry or borrow out of the full width.
    C,
}

/// The bit of the flags byte that a flag occupies.
pub open spec fn flag_mask(fl: Flag) -> u8 {
    match fl {
        Flag::Z => 0x80,
        Flag::N => 0x40,
        Flag::H => 0x20,
        Flag::C => 0x10,
    }
}

/// Whether a flag is set in a flags byte.
pub open spec fn flag_set(f: u8, fl: Flag) -> bool {
    f & flag_mask(fl) != 0
}

/// The 16-bit value formed by a register pair: high byte then low byte.
pub open spec fn pair(hi: u8, lo: u8) -> u16 {
    ((hi as u16) << 8) | (lo as u16)
}

/// The register file.
#[derive(Clone, Copy, Debug, PartialEq, Eq, Structural)]
pub struct Registers {
    pub a: u8,
    pub b: u8,
    pub c: u8,
    pub d: u8,
    pub e: u8,
    /// Flags byte; the four condition bits live in the high nibble.
    pub f: u8,
    pub h: u8,
    pub l: u8,
    /// Stack pointer.
    pub sp: u16,
    /// Program counter.
    pub pc: u16,
}

impl Registers {
    /// A power-on register file with every register cleared.
    pub fn new() -> (r: Registers)
        ensures
            r == (Registers { a: 0, b: 0, c: 0, d: 0, e: 0, f: 0, h: 0, l: 0, sp: 0, pc: 0 }),
    {
        Registers { a: 0, b: 0, c: 0, d: 0, e: 0, f: 0, h: 0, l: 0, sp: 0, pc: 0 }
    }

    /// The AF pair: accumulator in the high byte, flags byte in the low byte.
    pub fn get_af(&self) -> (r: u16)
        ensures
            r == pair(self.a, self.f),
    {
        ((self.a as u16) << 8) | (self.f as u16)
    }

    /// Writes the AF pair. The low nibble of the flags byte is grounded to
    /// zero: only the four condition bits of the written value survive.
    pub fn set_af(&mut self, value: u16)
        ensures
            *final(self) == (Registers { a: (value >> 8) as u8, f: (value & 0xF0) as u8, ..*old(self) }),
    {
        self.a = (value >> 8) as u8;
        self.f = (value & 0xF0) as u8;
    }

    /// The BC pair.
    pub fn get_bc(&self) -> (r: u16)
        ensures
            r == pair(self.b, self.c),
    {
        ((self.b as u16) << 8) | (self.c as u16)
    }

    /// Writes the BC pair.
    pub fn set_bc(&mut self, value: u16)
        ensures
            *final(self) == (Registers { b: (value >> 8) as u8, c: (value & 0xFF) as u8, ..*old(self) }),
    {
        self.b = (value >> 8) as u8;
        self.c = (value & 0xFF) as u8;
    }

    /// The DE pair.
    pub fn get_de(&self) -> (r: u16)
        ensures
            r == pair(self.d, self.e),
    {
        ((self.d as u16) << 8) | (self.e as u16)
    }

    /// Writes the DE pair.
    pub fn set_de(&mut self, value: u16)
        ensures
            *final(self) == (Registers { d: (value >> 8) as u8, e: (value & 0xFF) as u8, ..*old(self) }),
    {
        self.d = (value >> 8) as u8;
        self.e = (value & 0xFF) as u8;
    }

    /// The HL pair.
    pub fn get_hl(&self) -> (r: u16)
        ensures
            r == pair(self.h, self.l),
    {
        ((self.h as u16) << 8) | (self.l as u16)
    }

    /// Writes the HL pair.
    pub fn set_hl(&mut self, value: u16)
        ensures
            *final(self) == (Registers { h: (value >> 8) as u8, l: (value & 0xFF) as u8, ..*old(self) }),
    {
        self.h = (value >> 8) as u8;
        self.l = (value & 0xFF) as u8;
    }

    /// Whether a condition flag is set.
    pub fn get_flag(&self, flag: Flag) -> (r: bool)
        ensures
            r == flag_set(self.f, flag),
    {
        (self.f & flag_mask_exec(flag)) != 0
    }

    /// Sets or clears one condition flag, leaving every other bit of the
    /// flags byte unchanged.
    pub fn set_flag(&mut self, flag: Flag, value: bool)
        ensures
            *final(self) == (Registers { f: spec_set_flag(old(self).f, flag, value), ..*old(self) }),
    {
        if value {
            self.f = self.f | flag_mask_exec(flag);
        } else {
            self.f = self.f & !flag_mask_exec(flag);
        }
    }
}

/// The flags byte after one flag is set or cleared.
pub open spec fn spec_set_flag(f: u8, fl: Flag, value: bool) -> u8 {
    if value {
        f | flag_mask(fl)
    } else {
        f & !flag_mask(fl)
    }
}

/// The bit of the flags byte that a flag occupies.
fn flag_mask_exec(fl: Flag) -> (r: u8)
    ensures
        r == flag_mask(fl),
{
    match fl {
        Flag::Z => 0x80,
        Flag::N => 0x40,
        Flag::H => 0x20,
        Flag::C => 0x10,
    }
}

/// Composing a 16-bit value into a register pair and reading the pair back
/// returns the value unchanged. Together with the `ensures` of `set_bc` /
/// `get_bc` (and likewise DE and HL) this says that a pair write followed by
/// the paired read is lossless for every 16-bit value.
pub proof fn lemma_pair_roundtrip(v: u16)
    ensures
        pair((v >> 8) as u8, (v & 0xFF) as u8) == v,
{
    assert(((((v >> 8) as u8) as u16) << 8) | (((v & 0xFF) as u8) as u16) == v) by (bit_vector);
}

/// Writing AF and reading it back returns the written value with the low
/// nibble grounded to zero: `get_af` after `set_af(v)` is `v & 0xFFF0`, so
/// its low four bits are always zero.
pub proof fn lemma_pair_roundtrip_af(v: u16)
    ensures
        pair((v >> 8) as u8, (v & 0xF0) as u8) == v & 0xFFF0,
        pair((v >> 8) as u8, (v & 0xF0) as u8) & 0x000F == 0,
{
    assert(((((v >> 8) as u8) as u16) << 8) | (((v & 0xF0) as u8) as u16) == (v & 0xFFF0))
        by (bit_vector);
    assert((v & 0xFFF0) & 0x000F == 0) by (bit_vector);
}

} // verus!
