//! The interrupt controller: a pure function from the enable and request
//! bitmasks to the highest-priority pending interrupt. Priority is fixed by
//! bit index, bit 0 (VBlank) highest.

use vstd::prelude::*;
use crate::mmu::Memory;

verus! {

/// One interrupt source; the value names its bit in the enable and request
/// registers, ascending bit index meaning descending priority.
#[derive(Clone, Copy, Debug, PartialEq, Eq, Structural)]
pub enum Interrupt {
    VBlank,
    LCDStat,
    Timer,
    Serial,
    Joypad,
}

/// The request/enable bit index of an interrupt source.
pub open spec fn interrupt_bit(i: Interrupt) -> u8 {
    match i {
        Interrupt::VBlank => 0,
        Interrupt::LCDStat => 1,
        Interrupt::Timer => 2,
        Interrupt::Serial => 3,
        Interrupt::Joypad => 4,
    }
}

/// The interrupt source with a given bit index.
pub open spec fn interrupt_of_bit(n: u8) -> Interrupt {
    if n == 0 {
        Interrupt::VBlank
    } else if n == 1 {
        Interrupt::LCDStat
    } else if n == 2 {
        Interrupt::Timer
    } else if n == 3 {
        Interrupt::Serial
    } else {
        Interrupt::Joypad
    }
}

/// The lowest bit index set in both masks, restricted to the five interrupt
/// bits; `None` when no enabled interrupt is requested. Lower index wins, so
/// the result depends only on the two masks, never on the order in which the
/// bits were set.
pub open spec fn spec_pending(enable: u8, request: u8) -> Option<Interrupt> {
    let p = enable & request;
    if p & 0x01 != 0 {
        Some(Interrupt::VBlank)
    } else if p & 0x02 != 0 {
        Some(Interrupt::LCDStat)
    } else if p & 0x04 != 0 {
        Some(Interrupt::Timer)
    } else if p & 0x08 != 0 {
        Some(Interrupt::Serial)
    } else if p & 0x10 != 0 {
        Some(Interrupt::Joypad)
    } else {
        None
    }
}

/// The highest-priority interrupt that is both enabled and requested in the
/// address space's interrupt registers, or `None`.
pub fn highest_pending_interrupt(mem: &Memory) -> (r: Option<Interrupt>)
    requires
        mem.wf(),
    ensures
        r == spec_pending(mem.interrupt_enable, mem.io_registers@[0x0F]),
{
    let ie = mem.interrupt_enable;
    let iflag = mem.io_registers[0x0F];
    let pending = ie & iflag;
    if pending & 0x01 != 0 {
        Some(Interrupt::VBlank)
    } else if pending & 0x02 != 0 {
        Some(Interrupt::LCDStat)
    } else if pending & 0x04 != 0 {
        Some(Interrupt::Timer)
    } else if pending & 0x08 != 0 {
        Some(Interrupt::Serial)
    } else if pending & 0x10 != 0 {
        Some(Interrupt::Joypad)
    } else {
        None
    }
}

/// The selection is a pure function of the two masks: whenever the bit of an
/// interrupt is set in both masks, the selected interrupt exists and its bit
/// index is no larger, and a selected interrupt is always both enabled and
/// requested.
pub proof fn lemma_pending_priority(enable: u8, request: u8, i: Interrupt)
    requires
        enable & request & (1u8 << interrupt_bit(i)) != 0,
    ensures
        spec_pending(enable, request) is Some,
        interrupt_bit(spec_pending(enable, request)->Some_0) <= interrupt_bit(i),
        enable & request & (1u8 << interrupt_bit(spec_pending(enable, request)->Some_0)) != 0,
{
    let p = enable & request;
    let b = interrupt_bit(i);
    assert(p & (1u8 << b) != 0 && b <= 4 ==> p & 0x01 != 0 || p & 0x02 != 0 || p & 0x04 != 0
        || p & 0x08 != 0 || p & 0x10 != 0) by (bit_vector);
    assert(p & 0x01 != 0 ==> p & (1u8 << 0) != 0) by (bit_vector);
    assert(p & 0x01 == 0 && p & 0x02 != 0 ==> p & (1u8 << 1) != 0) by (bit_vector);
    assert(p & 0x01 == 0 && p & 0x02 == 0 && p & 0x04 != 0 ==> p & (1u8 << 2) != 0)
        by (bit_vector);
    assert(p & 0x01 == 0 && p & 0x02 == 0 && p & 0x04 == 0 && p & 0x08 != 0 ==> p & (1u8 << 3)
        != 0) by (bit_vector);
    assert(p & 0x01 == 0 && p & 0x02 == 0 && p & 0x04 == 0 && p & 0x08 == 0 && p & 0x10 != 0
        ==> p & (1u8 << 4) != 0) by (bit_vector);
    assert(p & (1u8 << b) != 0 && b == 0 ==> p & 0x01 != 0) by (bit_vector);
    assert(p & (1u8 << b) != 0 && b == 1 ==> p & 0x02 != 0) by (bit_vector);
    assert(p & (1u8 << b) != 0 && b == 2 ==> p & 0x04 != 0) by (bit_vector);
    assert(p & (1u8 << b) != 0 && b == 3 ==> p & 0x08 != 0) by (bit_vector);
    assert(p & (1u8 << b) != 0 && b == 4 ==> p & 0x10 != 0) by (bit_vector);
}

} // verus!
