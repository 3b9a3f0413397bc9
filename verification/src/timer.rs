//! The timer peripheral: a free-running divider that accumulates
//! unconditionally, and a programmable counter that increments the timer
//! register, reloading it from the modulo register and raising the timer
//! request bit on overflow, in the same step the overflow is detected.

use vstd::prelude::*;
use crate::mmu::{MemModel, Memory};

verus! {

/// The timer's own state: the 16-bit internal divider clock whose high byte
/// the divider register exposes. The programmable counter lives in a spare
/// I/O slot so a snapshot carries it with the register block.
#[derive(Clone, Copy, Debug, PartialEq, Eq, Structural)]
pub struct Timer {
    /// Internal divider clock; the divider register reads its high byte.
    pub div_counter: u16,
}

/// Cycles per timer-register increment, selected by the 2-bit rate field of
/// the control register.
pub open spec fn spec_timer_threshold(tac: u8) -> u16 {
    if tac & 0x03 == 0 {
        1024
    } else if tac & 0x03 == 1 {
        16
    } else if tac & 0x03 == 2 {
        64
    } else {
        256
    }
}

/// The timer and address space after one cycle-budget step: the divider
/// advances unconditionally; when the control register enables the timer,
/// the programmable counter accumulates, and on crossing its threshold the
/// timer register increments — reloading from the modulo register and
/// raising the timer request bit when it overflows.
pub open spec fn spec_timer_tick(t: Timer, m: MemModel, cycles: u8) -> (Timer, MemModel) {
    let div = t.div_counter.wrapping_add(cycles as u16);
    let t1 = Timer { div_counter: div };
    let m1 = MemModel { io: m.io.update(0x04, (div >> 8) as u8), ..m };
    let tac = m1.io[0x07];
    if tac & 0x04 == 0 {
        (t1, m1)
    } else {
        let threshold = spec_timer_threshold(tac);
        let internal = m1.io[0x70] as u32 + cycles as u32;
        if internal >= threshold as u32 {
            let leftover = (internal - threshold) as u32;
            let tima = m1.io[0x05];
            if tima == 0xFF {
                (t1, MemModel {
                    io: m1.io.update(0x05, m1.io[0x06]).update(0x0F, m1.io[0x0F] | 0x04).update(
                        0x70,
                        leftover as u8,
                    ),
                    ..m1
                })
            } else {
                (t1, MemModel {
                    io: m1.io.update(0x05, (tima + 1) as u8).update(0x70, leftover as u8),
                    ..m1
                })
            }
        } else {
            (t1, MemModel { io: m1.io.update(0x70, internal as u8), ..m1 })
        }
    }
}

impl Timer {
    /// A timer with a cleared divider clock.
    pub fn new() -> (r: Timer)
        ensures
            r == (Timer { div_counter: 0 }),
    {
        Timer { div_counter: 0 }
    }

    /// Advances the timer by a cycle budget; see `spec_timer_tick`.
    pub fn tick(&mut self, mem: &mut Memory, cycles: u8)
        requires
            old(mem).wf(),
        ensures
            (*final(self), final(mem)@) == spec_timer_tick(*old(self), old(mem)@, cycles),
            final(mem).wf(),
    {
        self.div_counter = self.div_counter.wrapping_add(cycles as u16);
        let div_reg = (self.div_counter >> 8) as u8;
        mem.io_registers[0x04] = div_reg;

        let tac = mem.io_registers[0x07];
        let timer_enabled = (tac & 0x04) != 0;
        if !timer_enabled {
            proof {
                assert(mem@ =~= spec_timer_tick(*old(self), old(mem)@, cycles).1);
            }
            return ;
        }

        let threshold: u16 = if tac & 0x03 == 0 {
            1024
        } else if tac & 0x03 == 1 {
            16
        } else if tac & 0x03 == 2 {
            64
        } else {
            256
        };

        let internal: u32 = mem.io_registers[0x70] as u32 + cycles as u32;
        if internal >= threshold as u32 {
            let leftover = internal - threshold as u32;
            let tima = mem.io_registers[0x05];
            if tima == 0xFF {
                // Overflow: reload from the modulo register and raise the
                // timer request bit in this same step.
                let tma = mem.io_registers[0x06];
                mem.io_registers[0x05] = tma;
                let iflag = mem.io_registers[0x0F];
                mem.io_registers[0x0F] = iflag | 0x04;
                mem.io_registers[0x70] = leftover as u8;
            } else {
                mem.io_registers[0x05] = tima + 1;
                mem.io_registers[0x70] = leftover as u8;
            }
        } else {
            mem.io_registers[0x70] = internal as u8;
        }
        proof {
            assert(mem@ =~= spec_timer_tick(*old(self), old(mem)@, cycles).1);
        }
    }
}

} // verus!
