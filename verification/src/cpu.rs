//! The execution engine: the fetch-decode-execute loop over the register
//! file and address space, interrupt dispatch with the enable-delay and
//! halt/halt-bug protocol, per-opcode cycle accounting, and the cycle-budget
//! handoff to the peripherals.

use vstd::prelude::*;
use crate::gpu::{GPU, GpuModel, gpu_init, spec_gpu_step};
use crate::keypad::Keypad;
use crate::mmu::{MemModel, Memory, mem_init, spec_load_rom, spec_rb, spec_wb};
use crate::serial::Serial;
use crate::registers::{Flag, Registers, flag_set, pair, spec_set_flag};
use crate::sound::Sound;
use crate::timer::{Timer, spec_timer_tick};
use crate::CoreError;

verus! {

/// The mathematical model of the whole core: register file, address space,
/// peripherals and run state.
#[verifier::ext_equal]
pub ghost struct CpuModel {
    pub reg: Registers,
    pub mem: MemModel,
    pub timer: Timer,
    pub gpu: GpuModel,
    pub sound: Sound,
    /// Halted flag: the engine executes one-cycle no-ops while set.
    pub halted: bool,
    /// One-shot halt-bug flag: the next opcode fetch does not advance the
    /// program counter.
    pub halt_bug: bool,
    /// Interrupt-master-enable flag.
    pub ime: bool,
    /// Countdown of a pending disable-interrupts request.
    pub setdi: u8,
    /// Countdown of a pending enable-interrupts request.
    pub setei: u8,
}

impl CpuModel {
    /// Well-formedness of the aggregate.
    pub open spec fn wf(self) -> bool {
        self.mem.wf() && self.gpu.wf()
    }
}

/// The execution engine, owning the register file, the address space and the
/// peripherals.
pub struct CPU {
    /// The register file.
    pub registers: Registers,
    /// The memory-mapped address space.
    pub memory: Memory,
    /// The timer peripheral.
    pub timer: Timer,
    /// The pixel processor.
    pub gpu: GPU,
    /// The sound peripheral's cycle accounting.
    pub sound: Sound,
    /// Halted flag: the engine executes one-cycle no-ops while set.
    pub halted: bool,
    /// One-shot halt-bug flag: the next opcode fetch does not advance the
    /// program counter.
    pub halt_bug: bool,
    /// Interrupt-master-enable flag.
    pub ime: bool,
    /// Countdown of a pending disable-interrupts request.
    pub setdi: u8,
    /// Countdown of a pending enable-interrupts request.
    pub setei: u8,
}

impl View for CPU {
    type V = CpuModel;

    open spec fn view(&self) -> CpuModel {
        CpuModel {
            reg: self.registers,
            mem: self.memory@,
            timer: self.timer,
            gpu: self.gpu@,
            sound: self.sound,
            halted: self.halted,
            halt_bug: self.halt_bug,
            ime: self.ime,
            setdi: self.setdi,
            setei: self.setei,
        }
    }
}

/// The core at power-on, before a cartridge is loaded and before the
/// post-boot register state is applied.
pub open spec fn cpu_init() -> CpuModel {
    CpuModel {
        reg: Registers { a: 0, b: 0, c: 0, d: 0, e: 0, f: 0, h: 0, l: 0, sp: 0, pc: 0 },
        mem: mem_init(),
        timer: Timer { div_counter: 0 },
        gpu: gpu_init(),
        sound: Sound { on: false, cycle_accum: 0 },
        halted: false,
        halt_bug: false,
        ime: false,
        setdi: 0,
        setei: 0,
    }
}

/// The register file right after the boot ROM of the classic machine.
pub open spec fn boot_registers() -> Registers {
    Registers {
        a: 0x01,
        f: 0xB0,
        b: 0x00,
        c: 0x13,
        d: 0x00,
        e: 0xD8,
        h: 0x01,
        l: 0x4D,
        sp: 0xFFFE,
        pc: 0x0100,
    }
}

/// The register file right after the boot ROM of the color machine.
pub open spec fn boot_registers_cgb() -> Registers {
    Registers {
        a: 0x11,
        f: 0x80,
        b: 0x00,
        c: 0x00,
        d: 0xFF,
        e: 0x56,
        h: 0x00,
        l: 0x0D,
        sp: 0xFFFE,
        pc: 0x0100,
    }
}

/// One byte read through the address space.
pub open spec fn cpu_rb(s: CpuModel, addr: u16) -> u8 {
    spec_rb(s.mem, addr)
}

/// The core after one byte is written through the address space.
pub open spec fn cpu_wb(s: CpuModel, addr: u16, v: u8) -> CpuModel {
    CpuModel { mem: spec_wb(s.mem, addr, v), ..s }
}

/// One little-endian 16-bit read: low byte first.
pub open spec fn cpu_rw(s: CpuModel, addr: u16) -> u16 {
    pair(spec_rb(s.mem, addr.wrapping_add(1)), spec_rb(s.mem, addr))
}

/// The core after one little-endian 16-bit write: low byte first.
pub open spec fn cpu_ww(s: CpuModel, addr: u16, w: u16) -> CpuModel {
    cpu_wb(cpu_wb(s, addr, (w & 0xFF) as u8), addr.wrapping_add(1), (w >> 8) as u8)
}

/// The core and opcode byte after one opcode fetch: the program counter
/// advances, unless the one-shot halt-bug flag is set, in which case this
/// fetch leaves it unchanged and the flag clears.
pub open spec fn spec_fetchbyte(s: CpuModel) -> (CpuModel, u8) {
    let b = spec_rb(s.mem, s.reg.pc);
    if s.halt_bug {
        (CpuModel { halt_bug: false, ..s }, b)
    } else {
        (
            CpuModel { reg: (Registers { pc: s.reg.pc.wrapping_add(1), ..s.reg }), ..s },
            b,
        )
    }
}

/// The core and operand word after a 16-bit immediate fetch.
pub open spec fn spec_fetchword(s: CpuModel) -> (CpuModel, u16) {
    let w = cpu_rw(s, s.reg.pc);
    (
        CpuModel { reg: (Registers { pc: s.reg.pc.wrapping_add(2), ..s.reg }), ..s },
        w,
    )
}

/// The core after a 16-bit value is pushed: the stack pointer moves down by
/// two, then the value is stored there.
pub open spec fn spec_push(s: CpuModel, v: u16) -> CpuModel {
    let sp = s.reg.sp.wrapping_sub(2);
    let s1 = CpuModel { reg: (Registers { sp, ..s.reg }), ..s };
    cpu_ww(s1, sp, v)
}

/// The core and value after a 16-bit pop: the value at the stack pointer,
/// which then moves up by two.
pub open spec fn spec_pop(s: CpuModel) -> (CpuModel, u16) {
    let v = cpu_rw(s, s.reg.sp);
    (
        CpuModel { reg: (Registers { sp: s.reg.sp.wrapping_add(2), ..s.reg }), ..s },
        v,
    )
}

/// The flags byte with all four condition bits rewritten, in the fixed
/// order Z, N, H, C.
pub open spec fn spec_flags_znhc(f: u8, z: bool, n: bool, h: bool, c: bool) -> u8 {
    spec_set_flag(spec_set_flag(spec_set_flag(spec_set_flag(f, Flag::Z, z), Flag::N, n), Flag::H, h),
        Flag::C, c)
}

/// The flags byte with the Z, N and H bits rewritten and C kept.
pub open spec fn spec_flags_znh(f: u8, z: bool, n: bool, h: bool) -> u8 {
    spec_set_flag(spec_set_flag(spec_set_flag(f, Flag::Z, z), Flag::N, n), Flag::H, h)
}

/// The flags byte with the N, H and C bits rewritten and Z kept.
pub open spec fn spec_flags_nhc(f: u8, n: bool, h: bool, c: bool) -> u8 {
    spec_set_flag(spec_set_flag(spec_set_flag(f, Flag::N, n), Flag::H, h), Flag::C, c)
}

/// Add (with optional carry-in) to the accumulator: the result and hardware
/// flag semantics, half-carry from the low nibble.
pub open spec fn spec_alu_add(reg: Registers, b: u8, usec: bool) -> Registers {
    let c: u8 = if usec && flag_set(reg.f, Flag::C) { 1u8 } else { 0u8 };
    let a = reg.a;
    let r = a.wrapping_add(b).wrapping_add(c);
    Registers {
        a: r,
        f: spec_flags_znhc(reg.f, r == 0, false, (a & 0xF) + (b & 0xF) + c > 0xF,
            a + b + c > 0xFF),
        ..reg
    }
}

/// Subtract (with optional borrow-in) from the accumulator: the result and
/// hardware flag semantics, half-borrow from the low nibble.
pub open spec fn spec_alu_sub(reg: Registers, b: u8, usec: bool) -> Registers {
    let c: u8 = if usec && flag_set(reg.f, Flag::C) { 1u8 } else { 0u8 };
    let a = reg.a;
    let r = a.wrapping_sub(b).wrapping_sub(c);
    Registers {
        a: r,
        f: spec_flags_znhc(reg.f, r == 0, true, (a & 0x0F) < (b & 0x0F) + c, (a as int) < b + c),
        ..reg
    }
}

/// Bitwise and into the accumulator; the half-carry flag is set.
pub open spec fn spec_alu_and(reg: Registers, b: u8) -> Registers {
    let r = reg.a & b;
    Registers { a: r, f: spec_flags_znhc(reg.f, r == 0, false, true, false), ..reg }
}

/// Bitwise exclusive or into the accumulator; all other flags cleared.
pub open spec fn spec_alu_xor(reg: Registers, b: u8) -> Registers {
    let r = reg.a ^ b;
    Registers { a: r, f: spec_flags_znhc(reg.f, r == 0, false, false, false), ..reg }
}

/// Bitwise or into the accumulator; all other flags cleared.
pub open spec fn spec_alu_or(reg: Registers, b: u8) -> Registers {
    let r = reg.a | b;
    Registers { a: r, f: spec_flags_znhc(reg.f, r == 0, false, false, false), ..reg }
}

/// Compare: subtract flags without storing the result.
pub open spec fn spec_alu_cp(reg: Registers, b: u8) -> Registers {
    let a = reg.a;
    let r = a.wrapping_sub(b);
    Registers {
        f: spec_flags_znhc(reg.f, r == 0, true, (a & 0x0F) < (b & 0x0F), a < b),
        ..reg
    }
}

/// Increment of one 8-bit value: the flags (carry kept) and the result;
/// half-carry exactly when the low nibble was `0xF`.
pub open spec fn spec_alu_inc(reg: Registers, a: u8) -> (Registers, u8) {
    let r = a.wrapping_add(1);
    (Registers { f: spec_flags_znh(reg.f, r == 0, false, (a & 0x0F) + 1 > 0x0F), ..reg }, r)
}

/// Decrement of one 8-bit value: the flags (carry kept) and the result;
/// half-borrow exactly when the low nibble was zero.
pub open spec fn spec_alu_dec(reg: Registers, a: u8) -> (Registers, u8) {
    let r = a.wrapping_sub(1);
    (Registers { f: spec_flags_znh(reg.f, r == 0, true, (a & 0x0F) == 0), ..reg }, r)
}

/// 16-bit add into HL: half-carry from the low 12 bits, zero flag kept.
pub open spec fn spec_alu_add16(reg: Registers, b: u16) -> Registers {
    let a = pair(reg.h, reg.l);
    let r = a.wrapping_add(b);
    let f = spec_flags_nhc(reg.f, false, (a & 0x0FFF) + (b & 0x0FFF) > 0x0FFF, a > 0xFFFF - b);
    Registers { h: (r >> 8) as u8, l: (r & 0xFF) as u8, f, ..reg }
}

/// Stack-pointer-relative add of a signed immediate: the flags come from the
/// unsigned low-byte addition; zero and subtract are cleared.
pub open spec fn spec_alu_add16imm(reg: Registers, a: u16, e: u8) -> (Registers, u16) {
    let b = e as i8 as u16;
    let f = spec_flags_znhc(reg.f, false, false, (a & 0x000F) + (b & 0x000F) > 0x000F,
        (a & 0x00FF) + (b & 0x00FF) > 0x00FF);
    (Registers { f, ..reg }, a.wrapping_add(b))
}

/// Nibble swap; carry, half-carry and subtract cleared.
pub open spec fn spec_alu_swap(reg: Registers, a: u8) -> (Registers, u8) {
    (Registers { f: spec_flags_znhc(reg.f, a == 0, false, false, false), ..reg },
        (a >> 4) | (a << 4))
}

/// The shared flag update of the rotate and shift group.
pub open spec fn spec_sr_flags(f: u8, r: u8, c: bool) -> u8 {
    spec_flags_znhc(f, r == 0, false, false, c)
}

/// Rotate left circular.
pub open spec fn spec_alu_rlc(reg: Registers, a: u8) -> (Registers, u8) {
    let c = a & 0x80 == 0x80;
    let r = (a << 1) | (if c { 1u8 } else { 0u8 });
    (Registers { f: spec_sr_flags(reg.f, r, c), ..reg }, r)
}

/// Rotate left through the carry flag.
pub open spec fn spec_alu_rl(reg: Registers, a: u8) -> (Registers, u8) {
    let c = a & 0x80 == 0x80;
    let r = (a << 1) | (if flag_set(reg.f, Flag::C) { 1u8 } else { 0u8 });
    (Registers { f: spec_sr_flags(reg.f, r, c), ..reg }, r)
}

/// Rotate right circular.
pub open spec fn spec_alu_rrc(reg: Registers, a: u8) -> (Registers, u8) {
    let c = a & 0x01 == 0x01;
    let r = (a >> 1) | (if c { 0x80u8 } else { 0u8 });
    (Registers { f: spec_sr_flags(reg.f, r, c), ..reg }, r)
}

/// Rotate right through the carry flag.
pub open spec fn spec_alu_rr(reg: Registers, a: u8) -> (Registers, u8) {
    let c = a & 0x01 == 0x01;
    let r = (a >> 1) | (if flag_set(reg.f, Flag::C) { 0x80u8 } else { 0u8 });
    (Registers { f: spec_sr_flags(reg.f, r, c), ..reg }, r)
}

/// Shift left arithmetic.
pub open spec fn spec_alu_sla(reg: Registers, a: u8) -> (Registers, u8) {
    let c = a & 0x80 == 0x80;
    let r = a << 1;
    (Registers { f: spec_sr_flags(reg.f, r, c), ..reg }, r)
}

/// Shift right arithmetic: the sign bit is kept.
pub open spec fn spec_alu_sra(reg: Registers, a: u8) -> (Registers, u8) {
    let c = a & 0x01 == 0x01;
    let r = (a >> 1) | (a & 0x80);
    (Registers { f: spec_sr_flags(reg.f, r, c), ..reg }, r)
}

/// Shift right logical.
pub open spec fn spec_alu_srl(reg: Registers, a: u8) -> (Registers, u8) {
    let c = a & 0x01 == 0x01;
    let r = a >> 1;
    (Registers { f: spec_sr_flags(reg.f, r, c), ..reg }, r)
}

/// Bit test: the zero flag holds whether the tested bit is clear.
pub open spec fn spec_alu_bit(reg: Registers, a: u8, b: u8) -> Registers {
    let z = a & ((1u8 << (b & 0x07))) == 0;
    Registers { f: spec_flags_znh(reg.f, z, false, true), ..reg }
}

/// Decimal adjust: corrects the accumulator to packed BCD using the previous
/// half-carry, carry and subtract flags, never a fresh recomputation. The
/// carry flag reports a decimal carry; half-carry is cleared.
pub open spec fn spec_alu_daa(reg: Registers) -> Registers {
    let a = reg.a;
    let adjust0: u8 = if flag_set(reg.f, Flag::C) { 0x60u8 } else { 0x00u8 };
    let adjust1: u8 = if flag_set(reg.f, Flag::H) { adjust0 | 0x06 } else { adjust0 };
    let n = flag_set(reg.f, Flag::N);
    let adjust: u8 = if !n {
        let x: u8 = if a & 0x0F > 0x09 { adjust1 | 0x06 } else { adjust1 };
        if a > 0x99 { x | 0x60 } else { x }
    } else {
        adjust1
    };
    let r = if !n { a.wrapping_add(adjust) } else { a.wrapping_sub(adjust) };
    let f = spec_set_flag(spec_set_flag(spec_set_flag(reg.f, Flag::C, adjust >= 0x60), Flag::H,
        false), Flag::Z, r == 0);
    Registers { a: r, f, ..reg }
}

impl CPU {
    /// Well-formedness of the aggregate.
    pub open spec fn wf(&self) -> bool {
        self@.wf()
    }

    /// A power-on core with no cartridge loaded.
    pub fn new() -> (r: CPU)
        ensures
            r@ == cpu_init(),
            r.wf(),
    {
        let r = CPU {
            registers: Registers::new(),
            memory: Memory::new(),
            timer: Timer::new(),
            gpu: GPU::new(),
            sound: Sound::new(),
            halted: false,
            halt_bug: false,
            ime: false,
            setdi: 0,
            setei: 0,
        };
        proof {
            assert(r@ =~= cpu_init());
        }
        r
    }

    /// A power-on core in color mode, with the color machine's post-boot
    /// registers and interrupts master-enabled.
    pub fn new_cgb() -> (r: CPU)
        ensures
            r@ == (CpuModel {
                reg: boot_registers_cgb(),
                mem: (MemModel { cgb_mode: true, ..mem_init() }),
                ime: true,
                ..cpu_init()
            }),
            r.wf(),
    {
        let mut r = CPU::new();
        r.registers.a = 0x11;
        r.registers.f = 0x80;
        r.registers.b = 0x00;
        r.registers.c = 0x00;
        r.registers.d = 0xFF;
        r.registers.e = 0x56;
        r.registers.h = 0x00;
        r.registers.l = 0x0D;
        r.registers.sp = 0xFFFE;
        r.registers.pc = 0x0100;
        r.memory.cgb_mode = true;
        r.ime = true;
        proof {
            assert(r@ =~= (CpuModel {
                reg: boot_registers_cgb(),
                mem: (MemModel { cgb_mode: true, ..mem_init() }),
                ime: true,
                ..cpu_init()
            }));
        }
        r
    }

    /// Applies the classic machine's post-boot register state.
    pub fn init(&mut self)
        requires
            old(self).wf(),
        ensures
            final(self)@ == (CpuModel { reg: boot_registers(), ..old(self)@ }),
            final(self).wf(),
    {
        self.registers.a = 0x01;
        self.registers.f = 0xB0;
        self.registers.b = 0x00;
        self.registers.c = 0x13;
        self.registers.d = 0x00;
        self.registers.e = 0xD8;
        self.registers.h = 0x01;
        self.registers.l = 0x4D;
        self.registers.pc = 0x0100;
        self.registers.sp = 0xFFFE;
        proof {
            assert(self@ =~= (CpuModel { reg: boot_registers(), ..old(self)@ }));
        }
    }

    /// Loads a cartridge image into the address space.
    pub fn load_rom(&mut self, rom_data: &[u8])
        requires
            old(self).wf(),
            rom_data@.len() <= 0x3FFF_0000,
        ensures
            final(self)@ == (CpuModel {
                mem: spec_load_rom(old(self)@.mem, rom_data@),
                ..old(self)@
            }),
            final(self).wf(),
    {
        self.memory.load_rom(rom_data);
        proof {
            assert(self@ =~= (CpuModel {
                mem: spec_load_rom(old(self)@.mem, rom_data@),
                ..old(self)@
            }));
        }
    }

    /// Reads one byte through the address space.
    pub fn read_byte(&mut self, address: u16) -> (r: u8)
        requires
            old(self).wf(),
        ensures
            final(self)@ == old(self)@,
            final(self).wf(),
            r == cpu_rb(old(self)@, address),
    {
        self.memory.read_byte(address)
    }

    /// Writes one byte through the address space.
    pub fn write_byte(&mut self, address: u16, byte: u8)
        requires
            old(self).wf(),
        ensures
            final(self)@ == cpu_wb(old(self)@, address, byte),
            final(self).wf(),
    {
        self.memory.write_byte(address, byte);
        proof {
            assert(self@ =~= cpu_wb(old(self)@, address, byte));
        }
    }

    /// Reads one little-endian 16-bit value through the address space.
    pub fn read_wide(&mut self, address: u16) -> (r: u16)
        requires
            old(self).wf(),
        ensures
            final(self)@ == old(self)@,
            final(self).wf(),
            r == cpu_rw(old(self)@, address),
    {
        let lo = self.memory.read_byte(address);
        let hi = self.memory.read_byte(address.wrapping_add(1));
        ((hi as u16) << 8) | (lo as u16)
    }

    /// Writes one little-endian 16-bit value through the address space: the
    /// low byte first.
    pub fn write_wide(&mut self, address: u16, wide: u16)
        requires
            old(self).wf(),
        ensures
            final(self)@ == cpu_ww(old(self)@, address, wide),
            final(self).wf(),
    {
        self.memory.write_byte(address, (wide & 0xFF) as u8);
        self.memory.write_byte(address.wrapping_add(1), (wide >> 8) as u8);
        proof {
            assert(self@ =~= cpu_ww(old(self)@, address, wide));
        }
    }

    /// Fetches the next opcode byte; see `spec_fetchbyte`.
    fn fetchbyte(&mut self) -> (r: u8)
        requires
            old(self).wf(),
        ensures
            (final(self)@, r) == spec_fetchbyte(old(self)@),
            final(self).wf(),
    {
        let b = self.memory.read_byte(self.registers.pc);
        if self.halt_bug {
            self.halt_bug = false;
        } else {
            self.registers.pc = self.registers.pc.wrapping_add(1);
        }
        proof {
            assert(self@ =~= spec_fetchbyte(old(self)@).0);
        }
        b
    }

    /// Fetches a 16-bit immediate; see `spec_fetchword`.
    fn fetchword(&mut self) -> (r: u16)
        requires
            old(self).wf(),
        ensures
            (final(self)@, r) == spec_fetchword(old(self)@),
            final(self).wf(),
    {
        let lo = self.memory.read_byte(self.registers.pc);
        let hi = self.memory.read_byte(self.registers.pc.wrapping_add(1));
        self.registers.pc = self.registers.pc.wrapping_add(2);
        proof {
            assert(self@ =~= spec_fetchword(old(self)@).0);
        }
        ((hi as u16) << 8) | (lo as u16)
    }

    /// Pushes a 16-bit value; see `spec_push`.
    fn pushstack(&mut self, value: u16)
        requires
            old(self).wf(),
        ensures
            final(self)@ == spec_push(old(self)@, value),
            final(self).wf(),
    {
        self.registers.sp = self.registers.sp.wrapping_sub(2);
        let sp = self.registers.sp;
        self.write_wide(sp, value);
        proof {
            assert(self@ =~= spec_push(old(self)@, value));
        }
    }

    /// Pops a 16-bit value; see `spec_pop`.
    fn popstack(&mut self) -> (r: u16)
        requires
            old(self).wf(),
        ensures
            (final(self)@, r) == spec_pop(old(self)@),
            final(self).wf(),
    {
        let sp = self.registers.sp;
        let res = self.read_wide(sp);
        self.registers.sp = self.registers.sp.wrapping_add(2);
        proof {
            assert(self@ =~= spec_pop(old(self)@).0);
        }
        res
    }

    /// Rewrites all four condition flags, in the fixed order Z, N, H, C.
    fn set_flags_znhc(&mut self, z: bool, n: bool, h: bool, c: bool)
        ensures
            final(self)@ == (CpuModel {
                reg: (Registers {
                    f: spec_flags_znhc(old(self)@.reg.f, z, n, h, c),
                    ..old(self)@.reg
                }),
                ..old(self)@
            }),
    {
        self.registers.set_flag(Flag::Z, z);
        self.registers.set_flag(Flag::N, n);
        self.registers.set_flag(Flag::H, h);
        self.registers.set_flag(Flag::C, c);
        proof {
            assert(self@ =~= (CpuModel {
                reg: (Registers {
                    f: spec_flags_znhc(old(self)@.reg.f, z, n, h, c),
                    ..old(self)@.reg
                }),
                ..old(self)@
            }));
        }
    }

    /// Rewrites the Z, N and H flags, keeping the carry flag.
    fn set_flags_znh(&mut self, z: bool, n: bool, h: bool)
        ensures
            final(self)@ == (CpuModel {
                reg: (Registers {
                    f: spec_flags_znh(old(self)@.reg.f, z, n, h),
                    ..old(self)@.reg
                }),
                ..old(self)@
            }),
    {
        self.registers.set_flag(Flag::Z, z);
        self.registers.set_flag(Flag::N, n);
        self.registers.set_flag(Flag::H, h);
        proof {
            assert(self@ =~= (CpuModel {
                reg: (Registers {
                    f: spec_flags_znh(old(self)@.reg.f, z, n, h),
                    ..old(self)@.reg
                }),
                ..old(self)@
            }));
        }
    }

    /// Rewrites the N, H and C flags, keeping the zero flag.
    fn set_flags_nhc(&mut self, n: bool, h: bool, c: bool)
        ensures
            final(self)@ == (CpuModel {
                reg: (Registers {
                    f: spec_flags_nhc(old(self)@.reg.f, n, h, c),
                    ..old(self)@.reg
                }),
                ..old(self)@
            }),
    {
        self.registers.set_flag(Flag::N, n);
        self.registers.set_flag(Flag::H, h);
        self.registers.set_flag(Flag::C, c);
        proof {
            assert(self@ =~= (CpuModel {
                reg: (Registers {
                    f: spec_flags_nhc(old(self)@.reg.f, n, h, c),
                    ..old(self)@.reg
                }),
                ..old(self)@
            }));
        }
    }

    /// Add (with optional carry-in) into the accumulator.
    fn alu_add(&mut self, b: u8, usec: bool)
        requires
            old(self).wf(),
        ensures
            final(self)@ == (CpuModel { reg: spec_alu_add(old(self)@.reg, b, usec), ..old(self)@ }),
            final(self).wf(),
    {
        let c: u8 = if usec && self.registers.get_flag(Flag::C) {
            1
        } else {
            0
        };
        let a = self.registers.a;
        let r = a.wrapping_add(b).wrapping_add(c);
        let h = (a & 0xF) as u16 + (b & 0xF) as u16 + c as u16 > 0xF;
        let carry = a as u16 + b as u16 + c as u16 > 0xFF;
        self.set_flags_znhc(r == 0, false, h, carry);
        self.registers.a = r;
        proof {
            assert(self@ =~= (CpuModel { reg: spec_alu_add(old(self)@.reg, b, usec), ..old(self)@ }));
        }
    }

    /// Subtract (with optional borrow-in) from the accumulator.
    fn alu_sub(&mut self, b: u8, usec: bool)
        requires
            old(self).wf(),
        ensures
            final(self)@ == (CpuModel { reg: spec_alu_sub(old(self)@.reg, b, usec), ..old(self)@ }),
            final(self).wf(),
    {
        let c: u8 = if usec && self.registers.get_flag(Flag::C) {
            1
        } else {
            0
        };
        let a = self.registers.a;
        let r = a.wrapping_sub(b).wrapping_sub(c);
        let h = ((a & 0x0F) as u16) < (b & 0x0F) as u16 + c as u16;
        let carry = (a as u16) < b as u16 + c as u16;
        self.set_flags_znhc(r == 0, true, h, carry);
        self.registers.a = r;
        proof {
            assert(self@ =~= (CpuModel { reg: spec_alu_sub(old(self)@.reg, b, usec), ..old(self)@ }));
        }
    }

    /// Bitwise and into the accumulator.
    fn alu_and(&mut self, b: u8)
        requires
            old(self).wf(),
        ensures
            final(self)@ == (CpuModel { reg: spec_alu_and(old(self)@.reg, b), ..old(self)@ }),
            final(self).wf(),
    {
        let r = self.registers.a & b;
        self.set_flags_znhc(r == 0, false, true, false);
        self.registers.a = r;
        proof {
            assert(self@ =~= (CpuModel { reg: spec_alu_and(old(self)@.reg, b), ..old(self)@ }));
        }
    }

    /// Bitwise exclusive or into the accumulator.
    fn alu_xor(&mut self, b: u8)
        requires
            old(self).wf(),
        ensures
            final(self)@ == (CpuModel { reg: spec_alu_xor(old(self)@.reg, b), ..old(self)@ }),
            final(self).wf(),
    {
        let r = self.registers.a ^ b;
        self.set_flags_znhc(r == 0, false, false, false);
        self.registers.a = r;
        proof {
            assert(self@ =~= (CpuModel { reg: spec_alu_xor(old(self)@.reg, b), ..old(self)@ }));
        }
    }

    /// Bitwise or into the accumulator.
    fn alu_or(&mut self, b: u8)
        requires
            old(self).wf(),
        ensures
            final(self)@ == (CpuModel { reg: spec_alu_or(old(self)@.reg, b), ..old(self)@ }),
            final(self).wf(),
    {
        let r = self.registers.a | b;
        self.set_flags_znhc(r == 0, false, false, false);
        self.registers.a = r;
        proof {
            assert(self@ =~= (CpuModel { reg: spec_alu_or(old(self)@.reg, b), ..old(self)@ }));
        }
    }

    /// Compare against the accumulator.
    fn alu_cp(&mut self, b: u8)
        requires
            old(self).wf(),
        ensures
            final(self)@ == (CpuModel { reg: spec_alu_cp(old(self)@.reg, b), ..old(self)@ }),
            final(self).wf(),
    {
        let a = self.registers.a;
        let r = a.wrapping_sub(b);
        self.set_flags_znhc(r == 0, true, (a & 0x0F) < (b & 0x0F), a < b);
        proof {
            assert(self@ =~= (CpuModel { reg: spec_alu_cp(old(self)@.reg, b), ..old(self)@ }));
        }
    }

    /// Increment of one 8-bit value.
    fn alu_inc(&mut self, a: u8) -> (r: u8)
        requires
            old(self).wf(),
        ensures
            final(self)@ == (CpuModel { reg: spec_alu_inc(old(self)@.reg, a).0, ..old(self)@ }),
            r == spec_alu_inc(old(self)@.reg, a).1,
            final(self).wf(),
    {
        let r = a.wrapping_add(1);
        self.set_flags_znh(r == 0, false, (a & 0x0F) == 0x0F);
        proof {
            assert((a & 0x0F) == 0x0F <==> (a & 0x0F) + 1 > 0x0F) by (bit_vector);
            assert(self@ =~= (CpuModel { reg: spec_alu_inc(old(self)@.reg, a).0, ..old(self)@ }));
        }
        r
    }

    /// Decrement of one 8-bit value.
    fn alu_dec(&mut self, a: u8) -> (r: u8)
        requires
            old(self).wf(),
        ensures
            final(self)@ == (CpuModel { reg: spec_alu_dec(old(self)@.reg, a).0, ..old(self)@ }),
            r == spec_alu_dec(old(self)@.reg, a).1,
            final(self).wf(),
    {
        let r = a.wrapping_sub(1);
        self.set_flags_znh(r == 0, true, (a & 0x0F) == 0);
        proof {
            assert(self@ =~= (CpuModel { reg: spec_alu_dec(old(self)@.reg, a).0, ..old(self)@ }));
        }
        r
    }

    /// 16-bit add into HL.
    fn alu_add16(&mut self, b: u16)
        requires
            old(self).wf(),
        ensures
            final(self)@ == (CpuModel { reg: spec_alu_add16(old(self)@.reg, b), ..old(self)@ }),
            final(self).wf(),
    {
        let a = self.registers.get_hl();
        let r = a.wrapping_add(b);
        let h = (a & 0x0FFF) as u32 + (b & 0x0FFF) as u32 > 0x0FFF;
        let c = a > 0xFFFF - b;
        self.set_flags_nhc(false, h, c);
        self.registers.set_hl(r);
        proof {
            assert(self@ =~= (CpuModel { reg: spec_alu_add16(old(self)@.reg, b), ..old(self)@ }));
        }
    }

    /// Stack-pointer-relative add of a signed immediate.
    fn alu_add16imm(&mut self, a: u16, e: u8) -> (r: u16)
        requires
            old(self).wf(),
        ensures
            final(self)@ == (CpuModel { reg: spec_alu_add16imm(old(self)@.reg, a, e).0, ..old(self)@ }),
            r == spec_alu_add16imm(old(self)@.reg, a, e).1,
            final(self).wf(),
    {
        let b = e as i8 as i16 as u16;
        let h = (a & 0x000F) as u32 + (b & 0x000F) as u32 > 0x000F;
        let c = (a & 0x00FF) as u32 + (b & 0x00FF) as u32 > 0x00FF;
        self.set_flags_znhc(false, false, h, c);
        proof {
            assert(self@ =~= (CpuModel {
                reg: spec_alu_add16imm(old(self)@.reg, a, e).0,
                ..old(self)@
            }));
        }
        a.wrapping_add(b)
    }

    /// Nibble swap.
    fn alu_swap(&mut self, a: u8) -> (r: u8)
        requires
            old(self).wf(),
        ensures
            final(self)@ == (CpuModel { reg: spec_alu_swap(old(self)@.reg, a).0, ..old(self)@ }),
            r == spec_alu_swap(old(self)@.reg, a).1,
            final(self).wf(),
    {
        self.set_flags_znhc(a == 0, false, false, false);
        proof {
            assert(self@ =~= (CpuModel { reg: spec_alu_swap(old(self)@.reg, a).0, ..old(self)@ }));
        }
        (a >> 4) | (a << 4)
    }

    /// The shared flag update of the rotate and shift group.
    fn alu_srflagupdate(&mut self, r: u8, c: bool)
        requires
            old(self).wf(),
        ensures
            final(self)@ == (CpuModel {
                reg: (Registers { f: spec_sr_flags(old(self)@.reg.f, r, c), ..old(self)@.reg }),
                ..old(self)@
            }),
            final(self).wf(),
    {
        self.set_flags_znhc(r == 0, false, false, c);
    }

    /// Rotate left circular.
    fn alu_rlc(&mut self, a: u8) -> (r: u8)
        requires
            old(self).wf(),
        ensures
            final(self)@ == (CpuModel { reg: spec_alu_rlc(old(self)@.reg, a).0, ..old(self)@ }),
            r == spec_alu_rlc(old(self)@.reg, a).1,
            final(self).wf(),
    {
        let c = a & 0x80 == 0x80;
        let r = (a << 1) | (if c {
            1
        } else {
            0
        });
        self.alu_srflagupdate(r, c);
        proof {
            assert(self@ =~= (CpuModel { reg: spec_alu_rlc(old(self)@.reg, a).0, ..old(self)@ }));
        }
        r
    }

    /// Rotate left through the carry flag.
    fn alu_rl(&mut self, a: u8) -> (r: u8)
        requires
            old(self).wf(),
        ensures
            final(self)@ == (CpuModel { reg: spec_alu_rl(old(self)@.reg, a).0, ..old(self)@ }),
            r == spec_alu_rl(old(self)@.reg, a).1,
            final(self).wf(),
    {
        let c = a & 0x80 == 0x80;
        let r = (a << 1) | (if self.registers.get_flag(Flag::C) {
            1
        } else {
            0
        });
        self.alu_srflagupdate(r, c);
        proof {
            assert(self@ =~= (CpuModel { reg: spec_alu_rl(old(self)@.reg, a).0, ..old(self)@ }));
        }
        r
    }

    /// Rotate right circular.
    fn alu_rrc(&mut self, a: u8) -> (r: u8)
        requires
            old(self).wf(),
        ensures
            final(self)@ == (CpuModel { reg: spec_alu_rrc(old(self)@.reg, a).0, ..old(self)@ }),
            r == spec_alu_rrc(old(self)@.reg, a).1,
            final(self).wf(),
    {
        let c = a & 0x01 == 0x01;
        let r = (a >> 1) | (if c {
            0x80
        } else {
            0
        });
        self.alu_srflagupdate(r, c);
        proof {
            assert(self@ =~= (CpuModel { reg: spec_alu_rrc(old(self)@.reg, a).0, ..old(self)@ }));
        }
        r
    }

    /// Rotate right through the carry flag.
    fn alu_rr(&mut self, a: u8) -> (r: u8)
        requires
            old(self).wf(),
        ensures
            final(self)@ == (CpuModel { reg: spec_alu_rr(old(self)@.reg, a).0, ..old(self)@ }),
            r == spec_alu_rr(old(self)@.reg, a).1,
            final(self).wf(),
    {
        let c = a & 0x01 == 0x01;
        let r = (a >> 1) | (if self.registers.get_flag(Flag::C) {
            0x80
        } else {
            0
        });
        self.alu_srflagupdate(r, c);
        proof {
            assert(self@ =~= (CpuModel { reg: spec_alu_rr(old(self)@.reg, a).0, ..old(self)@ }));
        }
        r
    }

    /// Shift left arithmetic.
    fn alu_sla(&mut self, a: u8) -> (r: u8)
        requires
            old(self).wf(),
        ensures
            final(self)@ == (CpuModel { reg: spec_alu_sla(old(self)@.reg, a).0, ..old(self)@ }),
            r == spec_alu_sla(old(self)@.reg, a).1,
            final(self).wf(),
    {
        let c = a & 0x80 == 0x80;
        let r = a << 1;
        self.alu_srflagupdate(r, c);
        proof {
            assert(self@ =~= (CpuModel { reg: spec_alu_sla(old(self)@.reg, a).0, ..old(self)@ }));
        }
        r
    }

    /// Shift right arithmetic.
    fn alu_sra(&mut self, a: u8) -> (r: u8)
        requires
            old(self).wf(),
        ensures
            final(self)@ == (CpuModel { reg: spec_alu_sra(old(self)@.reg, a).0, ..old(self)@ }),
            r == spec_alu_sra(old(self)@.reg, a).1,
            final(self).wf(),
    {
        let c = a & 0x01 == 0x01;
        let r = (a >> 1) | (a & 0x80);
        self.alu_srflagupdate(r, c);
        proof {
            assert(self@ =~= (CpuModel { reg: spec_alu_sra(old(self)@.reg, a).0, ..old(self)@ }));
        }
        r
    }

    /// Shift right logical.
    fn alu_srl(&mut self, a: u8) -> (r: u8)
        requires
            old(self).wf(),
        ensures
            final(self)@ == (CpuModel { reg: spec_alu_srl(old(self)@.reg, a).0, ..old(self)@ }),
            r == spec_alu_srl(old(self)@.reg, a).1,
            final(self).wf(),
    {
        let c = a & 0x01 == 0x01;
        let r = a >> 1;
        self.alu_srflagupdate(r, c);
        proof {
            assert(self@ =~= (CpuModel { reg: spec_alu_srl(old(self)@.reg, a).0, ..old(self)@ }));
        }
        r
    }

    /// Bit test.
    fn alu_bit(&mut self, a: u8, b: u8)
        requires
            old(self).wf(),
        ensures
            final(self)@ == (CpuModel { reg: spec_alu_bit(old(self)@.reg, a, b), ..old(self)@ }),
            final(self).wf(),
    {
        assert(b & 0x07 < 8) by (bit_vector);
        let z = a & (1u8 << (b & 0x07)) == 0;
        self.set_flags_znh(z, false, true);
        proof {
            assert(self@ =~= (CpuModel { reg: spec_alu_bit(old(self)@.reg, a, b), ..old(self)@ }));
        }
    }

    /// Decimal adjust of the accumulator.
    fn alu_daa(&mut self)
        requires
            old(self).wf(),
        ensures
            final(self)@ == (CpuModel { reg: spec_alu_daa(old(self)@.reg), ..old(self)@ }),
            final(self).wf(),
    {
        let mut a = self.registers.a;
        let mut adjust: u8 = if self.registers.get_flag(Flag::C) {
            0x60
        } else {
            0x00
        };
        if self.registers.get_flag(Flag::H) {
            adjust = adjust | 0x06;
        }
        if !self.registers.get_flag(Flag::N) {
            if a & 0x0F > 0x09 {
                adjust = adjust | 0x06;
            }
            if a > 0x99 {
                adjust = adjust | 0x60;
            }
            a = a.wrapping_add(adjust);
        } else {
            a = a.wrapping_sub(adjust);
        }
        self.registers.set_flag(Flag::C, adjust >= 0x60);
        self.registers.set_flag(Flag::H, false);
        self.registers.set_flag(Flag::Z, a == 0);
        self.registers.a = a;
        proof {
            assert(self@ =~= (CpuModel { reg: spec_alu_daa(old(self)@.reg), ..old(self)@ }));
        }
    }
}

/// The HL pair of a core state.
pub open spec fn spec_hl(s: CpuModel) -> u16 {
    pair(s.reg.h, s.reg.l)
}

/// The value of one operand location by its 3-bit code: B, C, D, E, H, L,
/// memory at HL, A.
pub open spec fn spec_reg_by_code(s: CpuModel, code: u8) -> u8 {
    if code == 0 {
        s.reg.b
    } else if code == 1 {
        s.reg.c
    } else if code == 2 {
        s.reg.d
    } else if code == 3 {
        s.reg.e
    } else if code == 4 {
        s.reg.h
    } else if code == 5 {
        s.reg.l
    } else if code == 6 {
        spec_rb(s.mem, spec_hl(s))
    } else {
        s.reg.a
    }
}

/// The core after one operand location is written by its 3-bit code.
pub open spec fn spec_set_reg_by_code(s: CpuModel, code: u8, v: u8) -> CpuModel {
    if code == 0 {
        CpuModel { reg: (Registers { b: v, ..s.reg }), ..s }
    } else if code == 1 {
        CpuModel { reg: (Registers { c: v, ..s.reg }), ..s }
    } else if code == 2 {
        CpuModel { reg: (Registers { d: v, ..s.reg }), ..s }
    } else if code == 3 {
        CpuModel { reg: (Registers { e: v, ..s.reg }), ..s }
    } else if code == 4 {
        CpuModel { reg: (Registers { h: v, ..s.reg }), ..s }
    } else if code == 5 {
        CpuModel { reg: (Registers { l: v, ..s.reg }), ..s }
    } else if code == 6 {
        cpu_wb(s, spec_hl(s), v)
    } else {
        CpuModel { reg: (Registers { a: v, ..s.reg }), ..s }
    }
}

/// Reads one operand location by its 3-bit code, including memory-indirect.
fn read_reg_by_code(cpu: &mut CPU, code: u8) -> (r: u8)
    requires
        old(cpu).wf(),
        code < 8,
    ensures
        final(cpu)@ == old(cpu)@,
        final(cpu).wf(),
        r == spec_reg_by_code(old(cpu)@, code),
{
    if code == 0 {
        cpu.registers.b
    } else if code == 1 {
        cpu.registers.c
    } else if code == 2 {
        cpu.registers.d
    } else if code == 3 {
        cpu.registers.e
    } else if code == 4 {
        cpu.registers.h
    } else if code == 5 {
        cpu.registers.l
    } else if code == 6 {
        let hl = cpu.registers.get_hl();
        cpu.memory.read_byte(hl)
    } else {
        cpu.registers.a
    }
}

/// Writes one operand location by its 3-bit code, including memory-indirect.
fn set_reg_by_code(cpu: &mut CPU, code: u8, v: u8)
    requires
        old(cpu).wf(),
        code < 8,
    ensures
        final(cpu)@ == spec_set_reg_by_code(old(cpu)@, code, v),
        final(cpu).wf(),
{
    if code == 0 {
        cpu.registers.b = v;
    } else if code == 1 {
        cpu.registers.c = v;
    } else if code == 2 {
        cpu.registers.d = v;
    } else if code == 3 {
        cpu.registers.e = v;
    } else if code == 4 {
        cpu.registers.h = v;
    } else if code == 5 {
        cpu.registers.l = v;
    } else if code == 6 {
        let hl = cpu.registers.get_hl();
        cpu.memory.write_byte(hl, v);
    } else {
        cpu.registers.a = v;
    }
    proof {
        assert(cpu@ =~= spec_set_reg_by_code(old(cpu)@, code, v));
    }
}

/// No-operation.
fn op_00(_cpu: &mut CPU, _op: u8) -> (c: u32)
    ensures
        c == 1,
        final(_cpu)@ == old(_cpu)@,
{
    1
}

/// Halt: the engine idles until an interrupt is pending. Entering halt while
/// an interrupt is pending but the master-enable flag is clear arms the
/// one-shot halt bug: the next fetch will not advance the program counter.
pub open spec fn spec_op_halt(s: CpuModel) -> CpuModel {
    CpuModel {
        halted: true,
        halt_bug: !s.ime && (s.mem.io[0x0F] & s.mem.interrupt_enable & 0x1F) != 0,
        ..s
    }
}

fn op_76(cpu: &mut CPU, _op: u8) -> (c: u32)
    requires
        old(cpu).wf(),
    ensures
        c == 1,
        final(cpu)@ == spec_op_halt(old(cpu)@),
        final(cpu).wf(),
{
    cpu.halted = true;
    let iflag = cpu.memory.io_registers[0x0F];
    cpu.halt_bug = !cpu.ime && (iflag & cpu.memory.interrupt_enable & 0x1F) != 0;
    proof {
        assert(cpu@ =~= spec_op_halt(old(cpu)@));
    }
    1
}

/// A 16-bit immediate load into a register pair or the stack pointer.
pub open spec fn spec_op_ld_rr_d16(s: CpuModel, op: u8) -> (CpuModel, u32) {
    let f = spec_fetchword(s);
    let s1 = f.0;
    let v = f.1;
    let reg = if op == 0x01 {
        Registers { b: (v >> 8) as u8, c: (v & 0xFF) as u8, ..s1.reg }
    } else if op == 0x11 {
        Registers { d: (v >> 8) as u8, e: (v & 0xFF) as u8, ..s1.reg }
    } else if op == 0x21 {
        Registers { h: (v >> 8) as u8, l: (v & 0xFF) as u8, ..s1.reg }
    } else {
        Registers { sp: v, ..s1.reg }
    };
    (CpuModel { reg, ..s1 }, 3)
}

fn op_ld_rr_d16(cpu: &mut CPU, op: u8) -> (c: u32)
    requires
        old(cpu).wf(),
        op == 0x01 || op == 0x11 || op == 0x21 || op == 0x31,
    ensures
        (final(cpu)@, c) == spec_op_ld_rr_d16(old(cpu)@, op),
        final(cpu).wf(),
{
    let val = cpu.fetchword();
    if op == 0x01 {
        cpu.registers.set_bc(val);
    } else if op == 0x11 {
        cpu.registers.set_de(val);
    } else if op == 0x21 {
        cpu.registers.set_hl(val);
    } else {
        cpu.registers.sp = val;
    }
    proof {
        assert(cpu@ =~= spec_op_ld_rr_d16(old(cpu)@, op).0);
    }
    3
}

/// An 8-bit register increment; the operand register is named by bits 3-5.
pub open spec fn spec_op_inc_r(s: CpuModel, op: u8) -> (CpuModel, u32) {
    let code = (op >> 3) & 0x07;
    let inc = spec_alu_inc(s.reg, spec_reg_by_code(s, code));
    (spec_set_reg_by_code(CpuModel { reg: inc.0, ..s }, code, inc.1), 1)
}

fn op_inc_r(cpu: &mut CPU, op: u8) -> (c: u32)
    requires
        old(cpu).wf(),
        op == 0x04 || op == 0x0C || op == 0x14 || op == 0x1C || op == 0x24 || op == 0x2C
            || op == 0x3C,
    ensures
        (final(cpu)@, c) == spec_op_inc_r(old(cpu)@, op),
        final(cpu).wf(),
{
    let code = (op >> 3) & 0x07;
    proof {
        assert((op >> 3) & 0x07 < 8) by (bit_vector);
        assert(op == 0x04 || op == 0x0C || op == 0x14 || op == 0x1C || op == 0x24 || op == 0x2C
            || op == 0x3C ==> (op >> 3) & 0x07 != 6) by (bit_vector);
    }
    let v = read_reg_by_code(cpu, code);
    let r = cpu.alu_inc(v);
    set_reg_by_code(cpu, code, r);
    proof {
        assert(cpu@ =~= spec_op_inc_r(old(cpu)@, op).0);
    }
    1
}

/// An 8-bit register decrement; the operand register is named by bits 3-5.
pub open spec fn spec_op_dec_r(s: CpuModel, op: u8) -> (CpuModel, u32) {
    let code = (op >> 3) & 0x07;
    let dec = spec_alu_dec(s.reg, spec_reg_by_code(s, code));
    (spec_set_reg_by_code(CpuModel { reg: dec.0, ..s }, code, dec.1), 1)
}

fn op_dec_r(cpu: &mut CPU, op: u8) -> (c: u32)
    requires
        old(cpu).wf(),
        op == 0x05 || op == 0x0D || op == 0x15 || op == 0x1D || op == 0x25 || op == 0x2D
            || op == 0x3D,
    ensures
        (final(cpu)@, c) == spec_op_dec_r(old(cpu)@, op),
        final(cpu).wf(),
{
    let code = (op >> 3) & 0x07;
    proof {
        assert((op >> 3) & 0x07 < 8) by (bit_vector);
        assert(op == 0x05 || op == 0x0D || op == 0x15 || op == 0x1D || op == 0x25 || op == 0x2D
            || op == 0x3D ==> (op >> 3) & 0x07 != 6) by (bit_vector);
    }
    let v = read_reg_by_code(cpu, code);
    let r = cpu.alu_dec(v);
    set_reg_by_code(cpu, code, r);
    proof {
        assert(cpu@ =~= spec_op_dec_r(old(cpu)@, op).0);
    }
    1
}

/// An 8-bit immediate load; the destination register is named by bits 3-5.
pub open spec fn spec_op_ld_r_d8(s: CpuModel, op: u8) -> (CpuModel, u32) {
    let f = spec_fetchbyte(s);
    (spec_set_reg_by_code(f.0, (op >> 3) & 0x07, f.1), 2)
}

fn op_ld_r_d8(cpu: &mut CPU, op: u8) -> (c: u32)
    requires
        old(cpu).wf(),
        op == 0x06 || op == 0x0E || op == 0x16 || op == 0x1E || op == 0x26 || op == 0x2E
            || op == 0x3E,
    ensures
        (final(cpu)@, c) == spec_op_ld_r_d8(old(cpu)@, op),
        final(cpu).wf(),
{
    let code = (op >> 3) & 0x07;
    proof {
        assert((op >> 3) & 0x07 < 8) by (bit_vector);
    }
    let v = cpu.fetchbyte();
    set_reg_by_code(cpu, code, v);
    proof {
        assert(cpu@ =~= spec_op_ld_r_d8(old(cpu)@, op).0);
    }
    2
}

/// An accumulator rotate; the zero flag is forced clear afterwards.
pub open spec fn spec_op_rot_a(s: CpuModel, op: u8) -> (CpuModel, u32) {
    let rot = if op == 0x07 {
        spec_alu_rlc(s.reg, s.reg.a)
    } else if op == 0x0F {
        spec_alu_rrc(s.reg, s.reg.a)
    } else if op == 0x17 {
        spec_alu_rl(s.reg, s.reg.a)
    } else {
        spec_alu_rr(s.reg, s.reg.a)
    };
    let reg1 = Registers { a: rot.1, ..rot.0 };
    (
        CpuModel { reg: (Registers { f: spec_set_flag(reg1.f, Flag::Z, false), ..reg1 }), ..s },
        1,
    )
}

fn op_rot_a(cpu: &mut CPU, op: u8) -> (c: u32)
    requires
        old(cpu).wf(),
        op == 0x07 || op == 0x0F || op == 0x17 || op == 0x1F,
    ensures
        (final(cpu)@, c) == spec_op_rot_a(old(cpu)@, op),
        final(cpu).wf(),
{
    let a = cpu.registers.a;
    let r = if op == 0x07 {
        cpu.alu_rlc(a)
    } else if op == 0x0F {
        cpu.alu_rrc(a)
    } else if op == 0x17 {
        cpu.alu_rl(a)
    } else {
        cpu.alu_rr(a)
    };
    cpu.registers.a = r;
    cpu.registers.set_flag(Flag::Z, false);
    proof {
        assert(cpu@ =~= spec_op_rot_a(old(cpu)@, op).0);
    }
    1
}

/// A register-to-register load (including the memory-indirect forms through
/// HL): destination in bits 3-5, source in bits 0-2; memory-indirect forms
/// cost one extra machine cycle.
pub open spec fn spec_op_ld_r_r(s: CpuModel, op: u8) -> (CpuModel, u32) {
    let dest = (op >> 3) & 0x07;
    let src = op & 0x07;
    let v = spec_reg_by_code(s, src);
    (spec_set_reg_by_code(s, dest, v), if dest == 6 || src == 6 { 2u32 } else { 1u32 })
}

fn op_ld_r_r(cpu: &mut CPU, op: u8) -> (c: u32)
    requires
        old(cpu).wf(),
        0x40 <= op < 0x80,
        op != 0x76,
    ensures
        (final(cpu)@, c) == spec_op_ld_r_r(old(cpu)@, op),
        final(cpu).wf(),
{
    let dest = (op >> 3) & 0x07;
    let src = op & 0x07;
    proof {
        assert((op >> 3) & 0x07 < 8 && op & 0x07 < 8) by (bit_vector);
    }
    let v = read_reg_by_code(cpu, src);
    set_reg_by_code(cpu, dest, v);
    proof {
        assert(cpu@ =~= spec_op_ld_r_r(old(cpu)@, op).0);
    }
    if dest == 6 || src == 6 {
        2
    } else {
        1
    }
}

/// An 8-bit immediate store through HL.
pub open spec fn spec_op_ld_hl_d8(s: CpuModel) -> (CpuModel, u32) {
    let f = spec_fetchbyte(s);
    (cpu_wb(f.0, spec_hl(f.0), f.1), 3)
}

fn op_ld_hl_d8(cpu: &mut CPU, _op: u8) -> (c: u32)
    requires
        old(cpu).wf(),
    ensures
        (final(cpu)@, c) == spec_op_ld_hl_d8(old(cpu)@),
        final(cpu).wf(),
{
    let v = cpu.fetchbyte();
    let hl = cpu.registers.get_hl();
    cpu.memory.write_byte(hl, v);
    proof {
        assert(cpu@ =~= spec_op_ld_hl_d8(old(cpu)@).0);
    }
    3
}

/// One arithmetic-logic operation against the accumulator; the operation in
/// bits 3-5, the source register in bits 0-2, a memory-indirect source
/// costing one extra machine cycle.
pub open spec fn spec_alu_apply(reg: Registers, opclass: u8, v: u8) -> Registers {
    if opclass == 0 {
        spec_alu_add(reg, v, false)
    } else if opclass == 1 {
        spec_alu_add(reg, v, true)
    } else if opclass == 2 {
        spec_alu_sub(reg, v, false)
    } else if opclass == 3 {
        spec_alu_sub(reg, v, true)
    } else if opclass == 4 {
        spec_alu_and(reg, v)
    } else if opclass == 5 {
        spec_alu_xor(reg, v)
    } else if opclass == 6 {
        spec_alu_or(reg, v)
    } else {
        spec_alu_cp(reg, v)
    }
}

pub open spec fn spec_op_alu_r(s: CpuModel, op: u8) -> (CpuModel, u32) {
    let opclass = (op >> 3) & 0x07;
    let src = op & 0x07;
    let v = spec_reg_by_code(s, src);
    (
        CpuModel { reg: spec_alu_apply(s.reg, opclass, v), ..s },
        if src == 6 { 2u32 } else { 1u32 },
    )
}

impl CPU {
    /// Applies one arithmetic-logic operation class to the accumulator.
    fn alu_apply(&mut self, opclass: u8, v: u8)
        requires
            old(self).wf(),
            opclass < 8,
        ensures
            final(self)@ == (CpuModel {
                reg: spec_alu_apply(old(self)@.reg, opclass, v),
                ..old(self)@
            }),
            final(self).wf(),
    {
        if opclass == 0 {
            self.alu_add(v, false);
        } else if opclass == 1 {
            self.alu_add(v, true);
        } else if opclass == 2 {
            self.alu_sub(v, false);
        } else if opclass == 3 {
            self.alu_sub(v, true);
        } else if opclass == 4 {
            self.alu_and(v);
        } else if opclass == 5 {
            self.alu_xor(v);
        } else if opclass == 6 {
            self.alu_or(v);
        } else {
            self.alu_cp(v);
        }
        proof {
            assert(self@ =~= (CpuModel {
                reg: spec_alu_apply(old(self)@.reg, opclass, v),
                ..old(self)@
            }));
        }
    }
}

fn op_alu_r(cpu: &mut CPU, op: u8) -> (c: u32)
    requires
        old(cpu).wf(),
        0x80 <= op < 0xC0,
    ensures
        (final(cpu)@, c) == spec_op_alu_r(old(cpu)@, op),
        final(cpu).wf(),
{
    let opclass = (op >> 3) & 0x07;
    let src = op & 0x07;
    proof {
        assert((op >> 3) & 0x07 < 8 && op & 0x07 < 8) by (bit_vector);
    }
    let v = read_reg_by_code(cpu, src);
    cpu.alu_apply(opclass, v);
    proof {
        assert(cpu@ =~= spec_op_alu_r(old(cpu)@, op).0);
    }
    if src == 6 {
        2
    } else {
        1
    }
}

/// One arithmetic-logic operation against the accumulator with an immediate
/// operand; the operation class sits in bits 3-5 of the opcode.
pub open spec fn spec_op_alu_d8(s: CpuModel, op: u8) -> (CpuModel, u32) {
    let f = spec_fetchbyte(s);
    (CpuModel { reg: spec_alu_apply(f.0.reg, (op >> 3) & 0x07, f.1), ..f.0 }, 2)
}

fn op_alu_d8(cpu: &mut CPU, op: u8) -> (c: u32)
    requires
        old(cpu).wf(),
        op == 0xC6 || op == 0xCE || op == 0xD6 || op == 0xDE || op == 0xE6 || op == 0xEE
            || op == 0xF6 || op == 0xFE,
    ensures
        (final(cpu)@, c) == spec_op_alu_d8(old(cpu)@, op),
        final(cpu).wf(),
{
    let opclass = (op >> 3) & 0x07;
    proof {
        assert((op >> 3) & 0x07 < 8) by (bit_vector);
    }
    let v = cpu.fetchbyte();
    cpu.alu_apply(opclass, v);
    proof {
        assert(cpu@ =~= spec_op_alu_d8(old(cpu)@, op).0);
    }
    2
}

/// A 16-bit register-pair increment.
pub open spec fn spec_op_inc_rr(s: CpuModel, op: u8) -> (CpuModel, u32) {
    let reg = if op == 0x03 {
        let v = pair(s.reg.b, s.reg.c).wrapping_add(1);
        Registers { b: (v >> 8) as u8, c: (v & 0xFF) as u8, ..s.reg }
    } else if op == 0x13 {
        let v = pair(s.reg.d, s.reg.e).wrapping_add(1);
        Registers { d: (v >> 8) as u8, e: (v & 0xFF) as u8, ..s.reg }
    } else if op == 0x23 {
        let v = pair(s.reg.h, s.reg.l).wrapping_add(1);
        Registers { h: (v >> 8) as u8, l: (v & 0xFF) as u8, ..s.reg }
    } else {
        Registers { sp: s.reg.sp.wrapping_add(1), ..s.reg }
    };
    (CpuModel { reg, ..s }, 2)
}

fn op_inc_rr(cpu: &mut CPU, op: u8) -> (c: u32)
    requires
        old(cpu).wf(),
        op == 0x03 || op == 0x13 || op == 0x23 || op == 0x33,
    ensures
        (final(cpu)@, c) == spec_op_inc_rr(old(cpu)@, op),
        final(cpu).wf(),
{
    if op == 0x03 {
        let v = cpu.registers.get_bc().wrapping_add(1);
        cpu.registers.set_bc(v);
    } else if op == 0x13 {
        let v = cpu.registers.get_de().wrapping_add(1);
        cpu.registers.set_de(v);
    } else if op == 0x23 {
        let v = cpu.registers.get_hl().wrapping_add(1);
        cpu.registers.set_hl(v);
    } else {
        cpu.registers.sp = cpu.registers.sp.wrapping_add(1);
    }
    proof {
        assert(cpu@ =~= spec_op_inc_rr(old(cpu)@, op).0);
    }
    2
}

/// A 16-bit register-pair decrement.
pub open spec fn spec_op_dec_rr(s: CpuModel, op: u8) -> (CpuModel, u32) {
    let reg = if op == 0x0B {
        let v = pair(s.reg.b, s.reg.c).wrapping_sub(1);
        Registers { b: (v >> 8) as u8, c: (v & 0xFF) as u8, ..s.reg }
    } else if op == 0x1B {
        let v = pair(s.reg.d, s.reg.e).wrapping_sub(1);
        Registers { d: (v >> 8) as u8, e: (v & 0xFF) as u8, ..s.reg }
    } else if op == 0x2B {
        let v = pair(s.reg.h, s.reg.l).wrapping_sub(1);
        Registers { h: (v >> 8) as u8, l: (v & 0xFF) as u8, ..s.reg }
    } else {
        Registers { sp: s.reg.sp.wrapping_sub(1), ..s.reg }
    };
    (CpuModel { reg, ..s }, 2)
}

fn op_dec_rr(cpu: &mut CPU, op: u8) -> (c: u32)
    requires
        old(cpu).wf(),
        op == 0x0B || op == 0x1B || op == 0x2B || op == 0x3B,
    ensures
        (final(cpu)@, c) == spec_op_dec_rr(old(cpu)@, op),
        final(cpu).wf(),
{
    if op == 0x0B {
        let v = cpu.registers.get_bc().wrapping_sub(1);
        cpu.registers.set_bc(v);
    } else if op == 0x1B {
        let v = cpu.registers.get_de().wrapping_sub(1);
        cpu.registers.set_de(v);
    } else if op == 0x2B {
        let v = cpu.registers.get_hl().wrapping_sub(1);
        cpu.registers.set_hl(v);
    } else {
        cpu.registers.sp = cpu.registers.sp.wrapping_sub(1);
    }
    proof {
        assert(cpu@ =~= spec_op_dec_rr(old(cpu)@, op).0);
    }
    2
}

/// A 16-bit add of a register pair into HL.
pub open spec fn spec_op_add_hl_rr(s: CpuModel, op: u8) -> (CpuModel, u32) {
    let b = if op == 0x09 {
        pair(s.reg.b, s.reg.c)
    } else if op == 0x19 {
        pair(s.reg.d, s.reg.e)
    } else if op == 0x29 {
        pair(s.reg.h, s.reg.l)
    } else {
        s.reg.sp
    };
    (CpuModel { reg: spec_alu_add16(s.reg, b), ..s }, 2)
}

fn op_add_hl_rr(cpu: &mut CPU, op: u8) -> (c: u32)
    requires
        old(cpu).wf(),
        op == 0x09 || op == 0x19 || op == 0x29 || op == 0x39,
    ensures
        (final(cpu)@, c) == spec_op_add_hl_rr(old(cpu)@, op),
        final(cpu).wf(),
{
    let b = if op == 0x09 {
        cpu.registers.get_bc()
    } else if op == 0x19 {
        cpu.registers.get_de()
    } else if op == 0x29 {
        cpu.registers.get_hl()
    } else {
        cpu.registers.sp
    };
    cpu.alu_add16(b);
    proof {
        assert(cpu@ =~= spec_op_add_hl_rr(old(cpu)@, op).0);
    }
    2
}

/// A register-pair push; the AF pair on the last opcode of the group.
pub open spec fn spec_op_push_rr(s: CpuModel, op: u8) -> (CpuModel, u32) {
    let v = if op == 0xC5 {
        pair(s.reg.b, s.reg.c)
    } else if op == 0xD5 {
        pair(s.reg.d, s.reg.e)
    } else if op == 0xE5 {
        pair(s.reg.h, s.reg.l)
    } else {
        pair(s.reg.a, s.reg.f)
    };
    (spec_push(s, v), 4)
}

fn op_push_rr(cpu: &mut CPU, op: u8) -> (c: u32)
    requires
        old(cpu).wf(),
        op == 0xC5 || op == 0xD5 || op == 0xE5 || op == 0xF5,
    ensures
        (final(cpu)@, c) == spec_op_push_rr(old(cpu)@, op),
        final(cpu).wf(),
{
    let v = if op == 0xC5 {
        cpu.registers.get_bc()
    } else if op == 0xD5 {
        cpu.registers.get_de()
    } else if op == 0xE5 {
        cpu.registers.get_hl()
    } else {
        cpu.registers.get_af()
    };
    cpu.pushstack(v);
    proof {
        assert(cpu@ =~= spec_op_push_rr(old(cpu)@, op).0);
    }
    4
}

/// A register-pair pop; popping into AF grounds the low nibble of the flags
/// byte to zero.
pub open spec fn spec_op_pop_rr(s: CpuModel, op: u8) -> (CpuModel, u32) {
    let p = spec_pop(s);
    let s1 = p.0;
    let v = p.1;
    let reg = if op == 0xC1 {
        Registers { b: (v >> 8) as u8, c: (v & 0xFF) as u8, ..s1.reg }
    } else if op == 0xD1 {
        Registers { d: (v >> 8) as u8, e: (v & 0xFF) as u8, ..s1.reg }
    } else if op == 0xE1 {
        Registers { h: (v >> 8) as u8, l: (v & 0xFF) as u8, ..s1.reg }
    } else {
        Registers { a: (v >> 8) as u8, f: (v & 0xF0) as u8, ..s1.reg }
    };
    (CpuModel { reg, ..s1 }, 3)
}

fn op_pop_rr(cpu: &mut CPU, op: u8) -> (c: u32)
    requires
        old(cpu).wf(),
        op == 0xC1 || op == 0xD1 || op == 0xE1 || op == 0xF1,
    ensures
        (final(cpu)@, c) == spec_op_pop_rr(old(cpu)@, op),
        final(cpu).wf(),
{
    let v = cpu.popstack();
    if op == 0xC1 {
        cpu.registers.set_bc(v);
    } else if op == 0xD1 {
        cpu.registers.set_de(v);
    } else if op == 0xE1 {
        cpu.registers.set_hl(v);
    } else {
        cpu.registers.set_af(v);
    }
    proof {
        assert(cpu@ =~= spec_op_pop_rr(old(cpu)@, op).0);
    }
    3
}

/// Stores the stack pointer at an immediate 16-bit address.
pub open spec fn spec_op_store_nn_sp(s: CpuModel) -> (CpuModel, u32) {
    let f = spec_fetchword(s);
    (cpu_ww(f.0, f.1, f.0.reg.sp), 5)
}

fn op_store_nn_sp(cpu: &mut CPU, _op: u8) -> (c: u32)
    requires
        old(cpu).wf(),
    ensures
        (final(cpu)@, c) == spec_op_store_nn_sp(old(cpu)@),
        final(cpu).wf(),
{
    let a = cpu.fetchword();
    let sp = cpu.registers.sp;
    cpu.write_wide(a, sp);
    proof {
        assert(cpu@ =~= spec_op_store_nn_sp(old(cpu)@).0);
    }
    5
}

/// Loads the accumulator from an immediate 16-bit address.
pub open spec fn spec_op_ld_a_nn(s: CpuModel) -> (CpuModel, u32) {
    let f = spec_fetchword(s);
    (
        CpuModel { reg: (Registers { a: spec_rb(f.0.mem, f.1), ..f.0.reg }), ..f.0 },
        4,
    )
}

fn op_ld_a_nn(cpu: &mut CPU, _op: u8) -> (c: u32)
    requires
        old(cpu).wf(),
    ensures
        (final(cpu)@, c) == spec_op_ld_a_nn(old(cpu)@),
        final(cpu).wf(),
{
    let a = cpu.fetchword();
    let v = cpu.memory.read_byte(a);
    cpu.registers.a = v;
    proof {
        assert(cpu@ =~= spec_op_ld_a_nn(old(cpu)@).0);
    }
    4
}

/// Stores the accumulator at an immediate 16-bit address.
pub open spec fn spec_op_ld_nn_a(s: CpuModel) -> (CpuModel, u32) {
    let f = spec_fetchword(s);
    (cpu_wb(f.0, f.1, f.0.reg.a), 4)
}

fn op_ld_nn_a(cpu: &mut CPU, _op: u8) -> (c: u32)
    requires
        old(cpu).wf(),
    ensures
        (final(cpu)@, c) == spec_op_ld_nn_a(old(cpu)@),
        final(cpu).wf(),
{
    let a = cpu.fetchword();
    let v = cpu.registers.a;
    cpu.memory.write_byte(a, v);
    proof {
        assert(cpu@ =~= spec_op_ld_nn_a(old(cpu)@).0);
    }
    4
}

/// High-page loads and stores: the accumulator against `0xFF00` plus an
/// immediate byte or the C register.
pub open spec fn spec_op_ldh(s: CpuModel, op: u8) -> (CpuModel, u32) {
    if op == 0xE0 {
        let f = spec_fetchbyte(s);
        (cpu_wb(f.0, (0xFF00 + f.1) as u16, f.0.reg.a), 3)
    } else if op == 0xF0 {
        let f = spec_fetchbyte(s);
        (
            CpuModel {
                reg: (Registers { a: spec_rb(f.0.mem, (0xFF00 + f.1) as u16), ..f.0.reg }),
                ..f.0
            },
            3,
        )
    } else if op == 0xE2 {
        (cpu_wb(s, (0xFF00 + s.reg.c) as u16, s.reg.a), 2)
    } else {
        (
            CpuModel {
                reg: (Registers { a: spec_rb(s.mem, (0xFF00 + s.reg.c) as u16), ..s.reg }),
                ..s
            },
            2,
        )
    }
}

fn op_ldh(cpu: &mut CPU, op: u8) -> (c: u32)
    requires
        old(cpu).wf(),
        op == 0xE0 || op == 0xF0 || op == 0xE2 || op == 0xF2,
    ensures
        (final(cpu)@, c) == spec_op_ldh(old(cpu)@, op),
        final(cpu).wf(),
{
    if op == 0xE0 {
        let off = cpu.fetchbyte() as u16;
        let v = cpu.registers.a;
        cpu.memory.write_byte(0xFF00 + off, v);
        proof {
            assert(cpu@ =~= spec_op_ldh(old(cpu)@, op).0);
        }
        3
    } else if op == 0xF0 {
        let off = cpu.fetchbyte() as u16;
        let v = cpu.memory.read_byte(0xFF00 + off);
        cpu.registers.a = v;
        proof {
            assert(cpu@ =~= spec_op_ldh(old(cpu)@, op).0);
        }
        3
    } else if op == 0xE2 {
        let v = cpu.registers.a;
        let addr = 0xFF00 + cpu.registers.c as u16;
        cpu.memory.write_byte(addr, v);
        proof {
            assert(cpu@ =~= spec_op_ldh(old(cpu)@, op).0);
        }
        2
    } else {
        let addr = 0xFF00 + cpu.registers.c as u16;
        let v = cpu.memory.read_byte(addr);
        cpu.registers.a = v;
        proof {
            assert(cpu@ =~= spec_op_ldh(old(cpu)@, op).0);
        }
        2
    }
}

/// Loads HL with the stack pointer plus a signed immediate; the flags come
/// from the low-byte addition.
pub open spec fn spec_op_ld_hl_sp_e(s: CpuModel) -> (CpuModel, u32) {
    let f = spec_fetchbyte(s);
    let s1 = f.0;
    let e = f.1 as i8 as u16;
    let sp = s1.reg.sp;
    let r = sp.wrapping_add(e);
    let fl = spec_flags_znhc(s1.reg.f, false, false, (sp ^ e ^ r) & 0x10 != 0,
        (sp ^ e ^ r) & 0x100 != 0);
    (
        CpuModel {
            reg: (Registers { h: (r >> 8) as u8, l: (r & 0xFF) as u8, f: fl, ..s1.reg }),
            ..s1
        },
        3,
    )
}

fn op_ld_hl_sp_e(cpu: &mut CPU, _op: u8) -> (c: u32)
    requires
        old(cpu).wf(),
    ensures
        (final(cpu)@, c) == spec_op_ld_hl_sp_e(old(cpu)@),
        final(cpu).wf(),
{
    let e = cpu.fetchbyte() as i8 as i16 as u16;
    let sp = cpu.registers.sp;
    let r = sp.wrapping_add(e);
    cpu.set_flags_znhc(false, false, (sp ^ e ^ r) & 0x10 != 0, (sp ^ e ^ r) & 0x100 != 0);
    cpu.registers.set_hl(r);
    proof {
        assert(cpu@ =~= spec_op_ld_hl_sp_e(old(cpu)@).0);
    }
    3
}

/// Copies HL into the stack pointer.
pub open spec fn spec_op_ld_sp_hl(s: CpuModel) -> (CpuModel, u32) {
    (CpuModel { reg: (Registers { sp: spec_hl(s), ..s.reg }), ..s }, 2)
}

fn op_ld_sp_hl(cpu: &mut CPU, _op: u8) -> (c: u32)
    requires
        old(cpu).wf(),
    ensures
        (final(cpu)@, c) == spec_op_ld_sp_hl(old(cpu)@),
        final(cpu).wf(),
{
    cpu.registers.sp = cpu.registers.get_hl();
    proof {
        assert(cpu@ =~= spec_op_ld_sp_hl(old(cpu)@).0);
    }
    2
}

/// Whether the branch condition named by an opcode holds: always for the
/// unconditional form, else one of not-zero, zero, not-carry, carry.
pub open spec fn spec_jr_cond(s: CpuModel, op: u8) -> bool {
    if op == 0x20 {
        !flag_set(s.reg.f, Flag::Z)
    } else if op == 0x28 {
        flag_set(s.reg.f, Flag::Z)
    } else if op == 0x30 {
        !flag_set(s.reg.f, Flag::C)
    } else if op == 0x38 {
        flag_set(s.reg.f, Flag::C)
    } else {
        true
    }
}

/// A relative jump: a signed immediate offset from the address after the
/// operand; an untaken branch costs one machine cycle less.
pub open spec fn spec_op_jr(s: CpuModel, op: u8) -> (CpuModel, u32) {
    let f = spec_fetchbyte(s);
    let s1 = f.0;
    let off = f.1 as i8 as u16;
    if spec_jr_cond(s1, op) {
        (
            CpuModel { reg: (Registers { pc: s1.reg.pc.wrapping_add(off), ..s1.reg }), ..s1 },
            3,
        )
    } else {
        (s1, 2)
    }
}

fn op_jr(cpu: &mut CPU, op: u8) -> (c: u32)
    requires
        old(cpu).wf(),
        op == 0x18 || op == 0x20 || op == 0x28 || op == 0x30 || op == 0x38,
    ensures
        (final(cpu)@, c) == spec_op_jr(old(cpu)@, op),
        final(cpu).wf(),
{
    let off = cpu.fetchbyte() as i8 as i16 as u16;
    let take = if op == 0x18 {
        true
    } else if op == 0x20 {
        !cpu.registers.get_flag(Flag::Z)
    } else if op == 0x28 {
        cpu.registers.get_flag(Flag::Z)
    } else if op == 0x30 {
        !cpu.registers.get_flag(Flag::C)
    } else {
        cpu.registers.get_flag(Flag::C)
    };
    if take {
        cpu.registers.pc = cpu.registers.pc.wrapping_add(off);
        proof {
            assert(cpu@ =~= spec_op_jr(old(cpu)@, op).0);
        }
        3
    } else {
        proof {
            assert(cpu@ =~= spec_op_jr(old(cpu)@, op).0);
        }
        2
    }
}

/// An absolute jump: to an immediate address (conditionally or not) or to HL;
/// an untaken branch costs one machine cycle less.
pub open spec fn spec_op_jp(s: CpuModel, op: u8) -> (CpuModel, u32) {
    if op == 0xE9 {
        (CpuModel { reg: (Registers { pc: spec_hl(s), ..s.reg }), ..s }, 1)
    } else {
        let f = spec_fetchword(s);
        let s1 = f.0;
        let cond = if op == 0xC2 {
            !flag_set(s1.reg.f, Flag::Z)
        } else if op == 0xCA {
            flag_set(s1.reg.f, Flag::Z)
        } else if op == 0xD2 {
            !flag_set(s1.reg.f, Flag::C)
        } else if op == 0xDA {
            flag_set(s1.reg.f, Flag::C)
        } else {
            true
        };
        if cond {
            (CpuModel { reg: (Registers { pc: f.1, ..s1.reg }), ..s1 }, 4)
        } else {
            (s1, 3)
        }
    }
}

fn op_jp(cpu: &mut CPU, op: u8) -> (c: u32)
    requires
        old(cpu).wf(),
        op == 0xC3 || op == 0xC2 || op == 0xCA || op == 0xD2 || op == 0xDA || op == 0xE9,
    ensures
        (final(cpu)@, c) == spec_op_jp(old(cpu)@, op),
        final(cpu).wf(),
{
    if op == 0xE9 {
        cpu.registers.pc = cpu.registers.get_hl();
        proof {
            assert(cpu@ =~= spec_op_jp(old(cpu)@, op).0);
        }
        1
    } else {
        let a = cpu.fetchword();
        let cond = if op == 0xC2 {
            !cpu.registers.get_flag(Flag::Z)
        } else if op == 0xCA {
            cpu.registers.get_flag(Flag::Z)
        } else if op == 0xD2 {
            !cpu.registers.get_flag(Flag::C)
        } else if op == 0xDA {
            cpu.registers.get_flag(Flag::C)
        } else {
            true
        };
        if cond {
            cpu.registers.pc = a;
            proof {
                assert(cpu@ =~= spec_op_jp(old(cpu)@, op).0);
            }
            4
        } else {
            proof {
                assert(cpu@ =~= spec_op_jp(old(cpu)@, op).0);
            }
            3
        }
    }
}

/// A call: fetch the target, then (when the condition holds) push the return
/// address and jump; an untaken call costs half as much.
pub open spec fn spec_op_call(s: CpuModel, op: u8) -> (CpuModel, u32) {
    let f = spec_fetchword(s);
    let s1 = f.0;
    let cond = if op == 0xC4 {
        !flag_set(s1.reg.f, Flag::Z)
    } else if op == 0xCC {
        flag_set(s1.reg.f, Flag::Z)
    } else if op == 0xD4 {
        !flag_set(s1.reg.f, Flag::C)
    } else if op == 0xDC {
        flag_set(s1.reg.f, Flag::C)
    } else {
        true
    };
    if cond {
        let s2 = spec_push(s1, s1.reg.pc);
        (CpuModel { reg: (Registers { pc: f.1, ..s2.reg }), ..s2 }, 6)
    } else {
        (s1, 3)
    }
}

fn op_call(cpu: &mut CPU, op: u8) -> (c: u32)
    requires
        old(cpu).wf(),
        op == 0xCD || op == 0xC4 || op == 0xCC || op == 0xD4 || op == 0xDC,
    ensures
        (final(cpu)@, c) == spec_op_call(old(cpu)@, op),
        final(cpu).wf(),
{
    let addr = cpu.fetchword();
    let cond = if op == 0xC4 {
        !cpu.registers.get_flag(Flag::Z)
    } else if op == 0xCC {
        cpu.registers.get_flag(Flag::Z)
    } else if op == 0xD4 {
        !cpu.registers.get_flag(Flag::C)
    } else if op == 0xDC {
        cpu.registers.get_flag(Flag::C)
    } else {
        true
    };
    if cond {
        let pc = cpu.registers.pc;
        cpu.pushstack(pc);
        cpu.registers.pc = addr;
        proof {
            assert(cpu@ =~= spec_op_call(old(cpu)@, op).0);
        }
        6
    } else {
        proof {
            assert(cpu@ =~= spec_op_call(old(cpu)@, op).0);
        }
        3
    }
}

/// A return: pop the return address (conditionally or not); returning from an
/// interrupt handler also schedules the master-enable flag to come back on.
pub open spec fn spec_op_ret(s: CpuModel, op: u8) -> (CpuModel, u32) {
    if op == 0xC9 {
        let p = spec_pop(s);
        (CpuModel { reg: (Registers { pc: p.1, ..p.0.reg }), ..p.0 }, 4)
    } else if op == 0xD9 {
        let p = spec_pop(s);
        (
            CpuModel { reg: (Registers { pc: p.1, ..p.0.reg }), setei: 1, ..p.0 },
            4,
        )
    } else {
        let cond = if op == 0xC0 {
            !flag_set(s.reg.f, Flag::Z)
        } else if op == 0xC8 {
            flag_set(s.reg.f, Flag::Z)
        } else if op == 0xD0 {
            !flag_set(s.reg.f, Flag::C)
        } else {
            flag_set(s.reg.f, Flag::C)
        };
        if cond {
            let p = spec_pop(s);
            (CpuModel { reg: (Registers { pc: p.1, ..p.0.reg }), ..p.0 }, 5)
        } else {
            (s, 2)
        }
    }
}

fn op_ret(cpu: &mut CPU, op: u8) -> (c: u32)
    requires
        old(cpu).wf(),
        op == 0xC9 || op == 0xD9 || op == 0xC0 || op == 0xC8 || op == 0xD0 || op == 0xD8,
    ensures
        (final(cpu)@, c) == spec_op_ret(old(cpu)@, op),
        final(cpu).wf(),
{
    if op == 0xC9 {
        let pc = cpu.popstack();
        cpu.registers.pc = pc;
        proof {
            assert(cpu@ =~= spec_op_ret(old(cpu)@, op).0);
        }
        4
    } else if op == 0xD9 {
        let pc = cpu.popstack();
        cpu.registers.pc = pc;
        cpu.setei = 1;
        proof {
            assert(cpu@ =~= spec_op_ret(old(cpu)@, op).0);
        }
        4
    } else {
        let cond = if op == 0xC0 {
            !cpu.registers.get_flag(Flag::Z)
        } else if op == 0xC8 {
            cpu.registers.get_flag(Flag::Z)
        } else if op == 0xD0 {
            !cpu.registers.get_flag(Flag::C)
        } else {
            cpu.registers.get_flag(Flag::C)
        };
        if cond {
            let pc = cpu.popstack();
            cpu.registers.pc = pc;
            proof {
                assert(cpu@ =~= spec_op_ret(old(cpu)@, op).0);
            }
            5
        } else {
            proof {
                assert(cpu@ =~= spec_op_ret(old(cpu)@, op).0);
            }
            2
        }
    }
}

/// The fixed restart vector of a restart opcode.
pub open spec fn spec_rst_target(op: u8) -> u16 {
    if op == 0xC7 {
        0x00
    } else if op == 0xCF {
        0x08
    } else if op == 0xD7 {
        0x10
    } else if op == 0xDF {
        0x18
    } else if op == 0xE7 {
        0x20
    } else if op == 0xEF {
        0x28
    } else if op == 0xF7 {
        0x30
    } else {
        0x38
    }
}

/// A restart: push the return address and jump to a fixed low vector.
pub open spec fn spec_op_rst(s: CpuModel, op: u8) -> (CpuModel, u32) {
    let s1 = spec_push(s, s.reg.pc);
    (
        CpuModel { reg: (Registers { pc: spec_rst_target(op), ..s1.reg }), ..s1 },
        4,
    )
}

fn op_rst(cpu: &mut CPU, op: u8) -> (c: u32)
    requires
        old(cpu).wf(),
        op == 0xC7 || op == 0xCF || op == 0xD7 || op == 0xDF || op == 0xE7 || op == 0xEF
            || op == 0xF7 || op == 0xFF,
    ensures
        (final(cpu)@, c) == spec_op_rst(old(cpu)@, op),
        final(cpu).wf(),
{
    let target: u16 = if op == 0xC7 {
        0x00
    } else if op == 0xCF {
        0x08
    } else if op == 0xD7 {
        0x10
    } else if op == 0xDF {
        0x18
    } else if op == 0xE7 {
        0x20
    } else if op == 0xEF {
        0x28
    } else if op == 0xF7 {
        0x30
    } else {
        0x38
    };
    let pc = cpu.registers.pc;
    cpu.pushstack(pc);
    cpu.registers.pc = target;
    proof {
        assert(cpu@ =~= spec_op_rst(old(cpu)@, op).0);
    }
    4
}

/// The miscellaneous single opcodes: decimal adjust, complement, the two
/// carry-flag opcodes, the interrupt enable/disable requests (each taking
/// effect only after the next instruction completes) and the speed-switch
/// stop.
pub open spec fn spec_op_misc(s: CpuModel, op: u8) -> (CpuModel, u32) {
    if op == 0x27 {
        (CpuModel { reg: spec_alu_daa(s.reg), ..s }, 1)
    } else if op == 0x2F {
        let reg = Registers {
            a: !s.reg.a,
            f: spec_set_flag(spec_set_flag(s.reg.f, Flag::H, true), Flag::N, true),
            ..s.reg
        };
        (CpuModel { reg, ..s }, 1)
    } else if op == 0x37 {
        (
            CpuModel {
                reg: (Registers { f: spec_flags_nhc(s.reg.f, false, false, true), ..s.reg }),
                ..s
            },
            1,
        )
    } else if op == 0x3F {
        let c = flag_set(s.reg.f, Flag::C);
        (
            CpuModel {
                reg: (Registers { f: spec_flags_nhc(s.reg.f, false, false, !c), ..s.reg }),
                ..s
            },
            1,
        )
    } else if op == 0xF3 {
        (CpuModel { setdi: 2, ..s }, 1)
    } else if op == 0xFB {
        (CpuModel { setei: 2, ..s }, 1)
    } else {
        let m = if s.mem.cgb_mode {
            MemModel { speed: if s.mem.speed == 1 { 2u8 } else { 1u8 }, ..s.mem }
        } else {
            s.mem
        };
        (CpuModel { mem: m, ..s }, 1)
    }
}

fn op_misc(cpu: &mut CPU, op: u8) -> (c: u32)
    requires
        old(cpu).wf(),
        op == 0x27 || op == 0x2F || op == 0x37 || op == 0x3F || op == 0xF3 || op == 0xFB
            || op == 0x10,
    ensures
        (final(cpu)@, c) == spec_op_misc(old(cpu)@, op),
        final(cpu).wf(),
{
    if op == 0x27 {
        cpu.alu_daa();
    } else if op == 0x2F {
        cpu.registers.a = !cpu.registers.a;
        cpu.registers.set_flag(Flag::H, true);
        cpu.registers.set_flag(Flag::N, true);
    } else if op == 0x37 {
        cpu.set_flags_nhc(false, false, true);
    } else if op == 0x3F {
        let cflag = cpu.registers.get_flag(Flag::C);
        cpu.set_flags_nhc(false, false, !cflag);
    } else if op == 0xF3 {
        // The disable request takes effect only after the next instruction.
        cpu.setdi = 2;
    } else if op == 0xFB {
        // The enable request takes effect only after the next instruction.
        cpu.setei = 2;
    } else {
        cpu.memory.switch_speed();
    }
    proof {
        assert(cpu@ =~= spec_op_misc(old(cpu)@, op).0);
    }
    1
}

/// Loads the accumulator through BC or DE.
pub open spec fn spec_op_ld_a_rr_ind(s: CpuModel, op: u8) -> (CpuModel, u32) {
    let addr = if op == 0x0A { pair(s.reg.b, s.reg.c) } else { pair(s.reg.d, s.reg.e) };
    (
        CpuModel { reg: (Registers { a: spec_rb(s.mem, addr), ..s.reg }), ..s },
        2,
    )
}

fn op_ld_a_rr_ind(cpu: &mut CPU, op: u8) -> (c: u32)
    requires
        old(cpu).wf(),
        op == 0x0A || op == 0x1A,
    ensures
        (final(cpu)@, c) == spec_op_ld_a_rr_ind(old(cpu)@, op),
        final(cpu).wf(),
{
    let addr = if op == 0x0A {
        cpu.registers.get_bc()
    } else {
        cpu.registers.get_de()
    };
    let v = cpu.memory.read_byte(addr);
    cpu.registers.a = v;
    proof {
        assert(cpu@ =~= spec_op_ld_a_rr_ind(old(cpu)@, op).0);
    }
    2
}

/// Stores the accumulator through BC or DE.
pub open spec fn spec_op_ld_rr_ind_a(s: CpuModel, op: u8) -> (CpuModel, u32) {
    let addr = if op == 0x02 { pair(s.reg.b, s.reg.c) } else { pair(s.reg.d, s.reg.e) };
    (cpu_wb(s, addr, s.reg.a), 2)
}

fn op_ld_rr_ind_a(cpu: &mut CPU, op: u8) -> (c: u32)
    requires
        old(cpu).wf(),
        op == 0x02 || op == 0x12,
    ensures
        (final(cpu)@, c) == spec_op_ld_rr_ind_a(old(cpu)@, op),
        final(cpu).wf(),
{
    let addr = if op == 0x02 {
        cpu.registers.get_bc()
    } else {
        cpu.registers.get_de()
    };
    let v = cpu.registers.a;
    cpu.memory.write_byte(addr, v);
    proof {
        assert(cpu@ =~= spec_op_ld_rr_ind_a(old(cpu)@, op).0);
    }
    2
}

/// Loads or stores the accumulator through HL, then increments or decrements
/// HL.
pub open spec fn spec_op_ld_hl_incdec_a(s: CpuModel, op: u8) -> (CpuModel, u32) {
    let hl = spec_hl(s);
    let hl2 = if op == 0x22 || op == 0x2A { hl.wrapping_add(1) } else { hl.wrapping_sub(1) };
    let reg1 = Registers { h: (hl2 >> 8) as u8, l: (hl2 & 0xFF) as u8, ..s.reg };
    if op == 0x22 || op == 0x32 {
        (cpu_wb(CpuModel { reg: reg1, ..s }, hl, s.reg.a), 2)
    } else {
        (
            CpuModel { reg: (Registers { a: spec_rb(s.mem, hl), ..reg1 }), ..s },
            2,
        )
    }
}

fn op_ld_hl_incdec_a(cpu: &mut CPU, op: u8) -> (c: u32)
    requires
        old(cpu).wf(),
        op == 0x22 || op == 0x2A || op == 0x32 || op == 0x3A,
    ensures
        (final(cpu)@, c) == spec_op_ld_hl_incdec_a(old(cpu)@, op),
        final(cpu).wf(),
{
    let hl = cpu.registers.get_hl();
    let hl2 = if op == 0x22 || op == 0x2A {
        hl.wrapping_add(1)
    } else {
        hl.wrapping_sub(1)
    };
    cpu.registers.set_hl(hl2);
    if op == 0x22 || op == 0x32 {
        let v = cpu.registers.a;
        cpu.memory.write_byte(hl, v);
    } else {
        let v = cpu.memory.read_byte(hl);
        cpu.registers.a = v;
    }
    proof {
        assert(cpu@ =~= spec_op_ld_hl_incdec_a(old(cpu)@, op).0);
    }
    2
}

/// Increments or decrements the byte at HL in place.
pub open spec fn spec_op_incdec_hl_mem(s: CpuModel, op: u8) -> (CpuModel, u32) {
    let addr = spec_hl(s);
    let v = spec_rb(s.mem, addr);
    let step = if op == 0x34 { spec_alu_inc(s.reg, v) } else { spec_alu_dec(s.reg, v) };
    (cpu_wb(CpuModel { reg: step.0, ..s }, addr, step.1), 3)
}

fn op_incdec_hl_mem(cpu: &mut CPU, op: u8) -> (c: u32)
    requires
        old(cpu).wf(),
        op == 0x34 || op == 0x35,
    ensures
        (final(cpu)@, c) == spec_op_incdec_hl_mem(old(cpu)@, op),
        final(cpu).wf(),
{
    let addr = cpu.registers.get_hl();
    let v = cpu.memory.read_byte(addr);
    let v2 = if op == 0x34 {
        cpu.alu_inc(v)
    } else {
        cpu.alu_dec(v)
    };
    cpu.memory.write_byte(addr, v2);
    proof {
        assert(cpu@ =~= spec_op_incdec_hl_mem(old(cpu)@, op).0);
    }
    3
}

/// Adds a signed immediate to the stack pointer.
pub open spec fn spec_op_add_sp(s: CpuModel) -> (CpuModel, u32) {
    let f = spec_fetchbyte(s);
    let step = spec_alu_add16imm(f.0.reg, f.0.reg.sp, f.1);
    (CpuModel { reg: (Registers { sp: step.1, ..step.0 }), ..f.0 }, 4)
}

fn op_add_sp(cpu: &mut CPU, _op: u8) -> (c: u32)
    requires
        old(cpu).wf(),
    ensures
        (final(cpu)@, c) == spec_op_add_sp(old(cpu)@),
        final(cpu).wf(),
{
    let e = cpu.fetchbyte();
    let sp = cpu.registers.sp;
    let r = cpu.alu_add16imm(sp, e);
    cpu.registers.sp = r;
    proof {
        assert(cpu@ =~= spec_op_add_sp(old(cpu)@).0);
    }
    4
}

/// One rotate/shift/swap of the prefixed opcode page, applied to any of the
/// eight operand locations; the memory-indirect form costs two extra
/// machine cycles.
pub open spec fn spec_cb_rot(s: CpuModel, opc: u8) -> (CpuModel, u32) {
    let target = opc & 0x07;
    let group = opc >> 3;
    let v = spec_reg_by_code(s, target);
    let rr = if group == 0 {
        spec_alu_rlc(s.reg, v)
    } else if group == 1 {
        spec_alu_rrc(s.reg, v)
    } else if group == 2 {
        spec_alu_rl(s.reg, v)
    } else if group == 3 {
        spec_alu_rr(s.reg, v)
    } else if group == 4 {
        spec_alu_sla(s.reg, v)
    } else if group == 5 {
        spec_alu_sra(s.reg, v)
    } else if group == 6 {
        spec_alu_swap(s.reg, v)
    } else {
        spec_alu_srl(s.reg, v)
    };
    (
        spec_set_reg_by_code(CpuModel { reg: rr.0, ..s }, target, rr.1),
        if target == 6 { 4u32 } else { 2u32 },
    )
}

fn cb_rot(cpu: &mut CPU, opc: u8) -> (c: u32)
    requires
        old(cpu).wf(),
        opc < 0x40,
    ensures
        (final(cpu)@, c) == spec_cb_rot(old(cpu)@, opc),
        final(cpu).wf(),
{
    let target = opc & 0x07;
    let group = opc >> 3;
    proof {
        assert(opc & 0x07 < 8) by (bit_vector);
        assert(opc < 0x40 ==> opc >> 3 < 8) by (bit_vector);
    }
    let v = read_reg_by_code(cpu, target);
    let r = if group == 0 {
        cpu.alu_rlc(v)
    } else if group == 1 {
        cpu.alu_rrc(v)
    } else if group == 2 {
        cpu.alu_rl(v)
    } else if group == 3 {
        cpu.alu_rr(v)
    } else if group == 4 {
        cpu.alu_sla(v)
    } else if group == 5 {
        cpu.alu_sra(v)
    } else if group == 6 {
        cpu.alu_swap(v)
    } else {
        cpu.alu_srl(v)
    };
    set_reg_by_code(cpu, target, r);
    proof {
        assert(cpu@ =~= spec_cb_rot(old(cpu)@, opc).0);
    }
    if target == 6 {
        4
    } else {
        2
    }
}

/// A bit test of the prefixed opcode page: bit index in bits 3-5, operand
/// location in bits 0-2.
pub open spec fn spec_cb_bit(s: CpuModel, opc: u8) -> (CpuModel, u32) {
    let target = opc & 0x07;
    let bit = (opc >> 3) & 0x07;
    let v = spec_reg_by_code(s, target);
    (
        CpuModel { reg: spec_alu_bit(s.reg, v, bit), ..s },
        if target == 6 { 3u32 } else { 2u32 },
    )
}

fn cb_bit(cpu: &mut CPU, opc: u8) -> (c: u32)
    requires
        old(cpu).wf(),
        0x40 <= opc < 0x80,
    ensures
        (final(cpu)@, c) == spec_cb_bit(old(cpu)@, opc),
        final(cpu).wf(),
{
    let target = opc & 0x07;
    let bit = (opc >> 3) & 0x07;
    proof {
        assert(opc & 0x07 < 8) by (bit_vector);
    }
    let v = read_reg_by_code(cpu, target);
    cpu.alu_bit(v, bit);
    proof {
        assert(cpu@ =~= spec_cb_bit(old(cpu)@, opc).0);
    }
    if target == 6 {
        3
    } else {
        2
    }
}

/// A bit clear of the prefixed opcode page.
pub open spec fn spec_cb_res(s: CpuModel, opc: u8) -> (CpuModel, u32) {
    let target = opc & 0x07;
    let bit = (opc >> 3) & 0x07;
    let v = spec_reg_by_code(s, target);
    (
        spec_set_reg_by_code(s, target, v & !(1u8 << bit)),
        if target == 6 { 4u32 } else { 2u32 },
    )
}

fn cb_res(cpu: &mut CPU, opc: u8) -> (c: u32)
    requires
        old(cpu).wf(),
        0x80 <= opc < 0xC0,
    ensures
        (final(cpu)@, c) == spec_cb_res(old(cpu)@, opc),
        final(cpu).wf(),
{
    let target = opc & 0x07;
    let bit = (opc >> 3) & 0x07;
    proof {
        assert(opc & 0x07 < 8) by (bit_vector);
        assert((opc >> 3) & 0x07 < 8) by (bit_vector);
    }
    let v = read_reg_by_code(cpu, target);
    set_reg_by_code(cpu, target, v & !(1u8 << bit));
    proof {
        assert(cpu@ =~= spec_cb_res(old(cpu)@, opc).0);
    }
    if target == 6 {
        4
    } else {
        2
    }
}

/// A bit set of the prefixed opcode page.
pub open spec fn spec_cb_set(s: CpuModel, opc: u8) -> (CpuModel, u32) {
    let target = opc & 0x07;
    let bit = (opc >> 3) & 0x07;
    let v = spec_reg_by_code(s, target);
    (
        spec_set_reg_by_code(s, target, v | (1u8 << bit)),
        if target == 6 { 4u32 } else { 2u32 },
    )
}

fn cb_set(cpu: &mut CPU, opc: u8) -> (c: u32)
    requires
        old(cpu).wf(),
        0xC0 <= opc,
    ensures
        (final(cpu)@, c) == spec_cb_set(old(cpu)@, opc),
        final(cpu).wf(),
{
    let target = opc & 0x07;
    let bit = (opc >> 3) & 0x07;
    proof {
        assert(opc & 0x07 < 8) by (bit_vector);
        assert((opc >> 3) & 0x07 < 8) by (bit_vector);
    }
    let v = read_reg_by_code(cpu, target);
    set_reg_by_code(cpu, target, v | (1u8 << bit));
    proof {
        assert(cpu@ =~= spec_cb_set(old(cpu)@, opc).0);
    }
    if target == 6 {
        4
    } else {
        2
    }
}

/// The prefixed opcode page: fetch the second opcode byte and decode it as a
/// rotate/shift, bit test, bit clear or bit set.
pub open spec fn spec_op_cb(s: CpuModel) -> (CpuModel, u32) {
    let f = spec_fetchbyte(s);
    let s1 = f.0;
    let opc = f.1;
    if opc < 0x40 {
        spec_cb_rot(s1, opc)
    } else if opc < 0x80 {
        spec_cb_bit(s1, opc)
    } else if opc < 0xC0 {
        spec_cb_res(s1, opc)
    } else {
        spec_cb_set(s1, opc)
    }
}

fn op_cb(cpu: &mut CPU, _op: u8) -> (c: u32)
    requires
        old(cpu).wf(),
    ensures
        (final(cpu)@, c) == spec_op_cb(old(cpu)@),
        final(cpu).wf(),
{
    let opc = cpu.fetchbyte();
    let c = if opc < 0x40 {
        cb_rot(cpu, opc)
    } else if opc < 0x80 {
        cb_bit(cpu, opc)
    } else if opc < 0xC0 {
        cb_res(cpu, opc)
    } else {
        cb_set(cpu, opc)
    };
    proof {
        assert(cpu@ =~= spec_op_cb(old(cpu)@).0);
    }
    c
}

/// The opcodes the engine does not decode.
pub open spec fn spec_illegal(op: u8) -> bool {
    op == 0xD3 || op == 0xDB || op == 0xDD || op == 0xE3 || op == 0xE4 || op == 0xEB
        || op == 0xEC || op == 0xED || op == 0xF4 || op == 0xFC || op == 0xFD
}

/// The core and machine-cycle cost after one decoded instruction executes,
/// the opcode byte already fetched.
#[verifier::opaque]
pub open spec fn spec_instr(s: CpuModel, op: u8) -> (CpuModel, u32)
    recommends
        !spec_illegal(op),
{
    if op == 0x00 {
        (s, 1)
    } else if op == 0x10 || op == 0x27 || op == 0x2F || op == 0x37 || op == 0x3F || op == 0xF3
        || op == 0xFB {
        spec_op_misc(s, op)
    } else if op == 0x76 {
        (spec_op_halt(s), 1)
    } else if 0x40 <= op && op < 0x80 {
        spec_op_ld_r_r(s, op)
    } else if 0x80 <= op && op < 0xC0 {
        spec_op_alu_r(s, op)
    } else if op == 0x01 || op == 0x11 || op == 0x21 || op == 0x31 {
        spec_op_ld_rr_d16(s, op)
    } else if op == 0x04 || op == 0x0C || op == 0x14 || op == 0x1C || op == 0x24 || op == 0x2C
        || op == 0x3C {
        spec_op_inc_r(s, op)
    } else if op == 0x05 || op == 0x0D || op == 0x15 || op == 0x1D || op == 0x25 || op == 0x2D
        || op == 0x3D {
        spec_op_dec_r(s, op)
    } else if op == 0x06 || op == 0x0E || op == 0x16 || op == 0x1E || op == 0x26 || op == 0x2E
        || op == 0x3E {
        spec_op_ld_r_d8(s, op)
    } else if op == 0x36 {
        spec_op_ld_hl_d8(s)
    } else if op == 0x07 || op == 0x0F || op == 0x17 || op == 0x1F {
        spec_op_rot_a(s, op)
    } else if op == 0x03 || op == 0x13 || op == 0x23 || op == 0x33 {
        spec_op_inc_rr(s, op)
    } else if op == 0x0B || op == 0x1B || op == 0x2B || op == 0x3B {
        spec_op_dec_rr(s, op)
    } else if op == 0x09 || op == 0x19 || op == 0x29 || op == 0x39 {
        spec_op_add_hl_rr(s, op)
    } else if op == 0xC5 || op == 0xD5 || op == 0xE5 || op == 0xF5 {
        spec_op_push_rr(s, op)
    } else if op == 0xC1 || op == 0xD1 || op == 0xE1 || op == 0xF1 {
        spec_op_pop_rr(s, op)
    } else if op == 0x08 {
        spec_op_store_nn_sp(s)
    } else if op == 0xFA {
        spec_op_ld_a_nn(s)
    } else if op == 0xEA {
        spec_op_ld_nn_a(s)
    } else if op == 0xC6 || op == 0xCE || op == 0xD6 || op == 0xDE || op == 0xE6 || op == 0xEE
        || op == 0xF6 || op == 0xFE {
        spec_op_alu_d8(s, op)
    } else if op == 0xE0 || op == 0xF0 || op == 0xE2 || op == 0xF2 {
        spec_op_ldh(s, op)
    } else if op == 0xF8 {
        spec_op_ld_hl_sp_e(s)
    } else if op == 0xF9 {
        spec_op_ld_sp_hl(s)
    } else if op == 0x18 || op == 0x20 || op == 0x28 || op == 0x30 || op == 0x38 {
        spec_op_jr(s, op)
    } else if op == 0xC3 || op == 0xC2 || op == 0xCA || op == 0xD2 || op == 0xDA || op == 0xE9 {
        spec_op_jp(s, op)
    } else if op == 0xCD || op == 0xC4 || op == 0xCC || op == 0xD4 || op == 0xDC {
        spec_op_call(s, op)
    } else if op == 0xC9 || op == 0xD9 || op == 0xC0 || op == 0xC8 || op == 0xD0 || op == 0xD8 {
        spec_op_ret(s, op)
    } else if op == 0xC7 || op == 0xCF || op == 0xD7 || op == 0xDF || op == 0xE7 || op == 0xEF
        || op == 0xF7 || op == 0xFF {
        spec_op_rst(s, op)
    } else if op == 0x0A || op == 0x1A {
        spec_op_ld_a_rr_ind(s, op)
    } else if op == 0x02 || op == 0x12 {
        spec_op_ld_rr_ind_a(s, op)
    } else if op == 0x22 || op == 0x2A || op == 0x32 || op == 0x3A {
        spec_op_ld_hl_incdec_a(s, op)
    } else if op == 0x34 || op == 0x35 {
        spec_op_incdec_hl_mem(s, op)
    } else if op == 0xE8 {
        spec_op_add_sp(s)
    } else if op == 0xCB {
        spec_op_cb(s)
    } else {
        (s, 0)
    }
}

/// The enable-delay update that runs first in every step: a pending
/// disable/enable request counts down, and flips the master-enable flag only
/// when its countdown reaches the final stage — one instruction after the
/// request.
pub open spec fn spec_updateime(s: CpuModel) -> CpuModel {
    let s1 = if s.setdi == 2 {
        CpuModel { setdi: 1, ..s }
    } else if s.setdi == 1 {
        CpuModel { ime: false, setdi: 0, ..s }
    } else {
        CpuModel { setdi: 0, ..s }
    };
    if s1.setei == 2 {
        CpuModel { setei: 1, ..s1 }
    } else if s1.setei == 1 {
        CpuModel { ime: true, setei: 0, ..s1 }
    } else {
        CpuModel { setei: 0, ..s1 }
    }
}

/// The lowest set bit index of a nonzero 5-bit mask.
pub open spec fn spec_lowest_bit(t: u8) -> u8 {
    if t & 0x01 != 0 {
        0
    } else if t & 0x02 != 0 {
        1
    } else if t & 0x04 != 0 {
        2
    } else if t & 0x08 != 0 {
        3
    } else {
        4
    }
}

/// Interrupt dispatch, which precedes every fetch. When an enabled interrupt
/// is requested the halted state always clears; with the master-enable flag
/// set, dispatch then clears that flag and the selected request bit — the
/// lowest pending bit index, bit 0 highest priority — pushes the program
/// counter and jumps to the interrupt's vector, at a cost of five machine
/// cycles. In every other case nothing changes and the cost is zero.
pub open spec fn spec_handleinterrupt(s: CpuModel) -> (CpuModel, u32) {
    if !s.ime && !s.halted {
        (s, 0)
    } else {
        let triggered = s.mem.interrupt_enable & s.mem.io[0x0F] & 0x1F;
        if triggered == 0 {
            (s, 0)
        } else {
            let s1 = CpuModel { halted: false, ..s };
            if !s1.ime {
                (s1, 0)
            } else {
                let n = spec_lowest_bit(triggered);
                let m = MemModel {
                    io: s1.mem.io.update(0x0F, s1.mem.io[0x0F] & !(1u8 << n)),
                    ..s1.mem
                };
                let s2 = CpuModel { ime: false, mem: m, ..s1 };
                let s3 = spec_push(s2, s2.reg.pc);
                (
                    CpuModel {
                        reg: (Registers { pc: 0x0040 | ((n as u16) << 3), ..s3.reg }),
                        ..s3
                    },
                    5,
                )
            }
        }
    }
}

/// What one engine step does: the state after it, its machine-cycle cost,
/// and the fault — the undecoded opcode and the address it was fetched from
/// — if the step hit one.
#[verifier::ext_equal]
pub ghost struct StepOut {
    pub state: CpuModel,
    pub mc: u32,
    pub fault: Option<(u8, u16)>,
}

/// One engine step: the enable-delay update runs first, interrupt dispatch
/// precedes the fetch, a halted core with nothing pending executes a
/// one-machine-cycle no-op, and otherwise one instruction is fetched and
/// executed — faulting on an opcode the engine does not decode.
#[verifier::opaque]
pub open spec fn spec_step(s: CpuModel) -> StepOut {
    let s0 = spec_updateime(s);
    let ih = spec_handleinterrupt(s0);
    if ih.1 != 0 {
        StepOut { state: ih.0, mc: ih.1, fault: None }
    } else {
        let s1 = ih.0;
        if s1.halted {
            StepOut { state: s1, mc: 1, fault: None }
        } else {
            let opaddr = s1.reg.pc;
            let f = spec_fetchbyte(s1);
            if spec_illegal(f.1) {
                StepOut { state: f.0, mc: 0, fault: Some((f.1, opaddr)) }
            } else {
                let e = spec_instr(f.0, f.1);
                StepOut { state: e.0, mc: e.1, fault: None }
            }
        }
    }
}

impl CPU {
    /// The enable-delay update; see `spec_updateime`.
    fn updateime(&mut self)
        requires
            old(self).wf(),
        ensures
            final(self)@ == spec_updateime(old(self)@),
            final(self).wf(),
    {
        if self.setdi == 2 {
            self.setdi = 1;
        } else if self.setdi == 1 {
            self.ime = false;
            self.setdi = 0;
        } else {
            self.setdi = 0;
        }
        if self.setei == 2 {
            self.setei = 1;
        } else if self.setei == 1 {
            self.ime = true;
            self.setei = 0;
        } else {
            self.setei = 0;
        }
        proof {
            assert(self@ =~= spec_updateime(old(self)@));
        }
    }

    /// Interrupt dispatch; see `spec_handleinterrupt`. Returns the
    /// machine-cycle cost, zero when no dispatch happened.
    fn handleinterrupt(&mut self) -> (c: u32)
        requires
            old(self).wf(),
        ensures
            (final(self)@, c) == spec_handleinterrupt(old(self)@),
            c == 0 || c == 5,
            final(self).wf(),
    {
        if !self.ime && !self.halted {
            return 0;
        }
        let iflag = self.memory.io_registers[0x0F];
        let triggered = self.memory.interrupt_enable & iflag & 0x1F;
        if triggered == 0 {
            return 0;
        }
        self.halted = false;
        if !self.ime {
            proof {
                assert(self@ =~= spec_handleinterrupt(old(self)@).0);
            }
            return 0;
        }
        self.ime = false;
        let n: u8 = if triggered & 0x01 != 0 {
            0
        } else if triggered & 0x02 != 0 {
            1
        } else if triggered & 0x04 != 0 {
            2
        } else if triggered & 0x08 != 0 {
            3
        } else {
            4
        };
        proof {
            assert(n < 8);
        }
        let ifl2 = self.memory.io_registers[0x0F];
        self.memory.io_registers[0x0F] = ifl2 & !(1u8 << n);
        let pc = self.registers.pc;
        self.pushstack(pc);
        self.registers.pc = 0x0040 | ((n as u16) << 3);
        proof {
            assert(self@ =~= spec_handleinterrupt(old(self)@).0);
        }
        5
    }

    /// Fetches one opcode byte and dispatches it; the machine-cycle cost on
    /// success, or the undecoded-opcode fault with the opcode and the
    /// address it was fetched from.
    fn call(&mut self) -> (r: Result<u32, CoreError>)
        requires
            old(self).wf(),
        ensures
            final(self).wf(),
            ({
                let f = spec_fetchbyte(old(self)@);
                match r {
                    Ok(c) => !spec_illegal(f.1) && (final(self)@, c) == spec_instr(f.0, f.1)
                        && c <= 6,
                    Err(e) => spec_illegal(f.1) && final(self)@ == f.0 && e
                        == CoreError::UnknownOpcode(f.1, old(self)@.reg.pc),
                }
            }),
    {
        proof {
            reveal(spec_instr);
        }
        let opaddr = self.registers.pc;
        let op = self.fetchbyte();
        let c: u32 = if op == 0x00 {
            op_00(self, op)
        } else if op == 0x10 || op == 0x27 || op == 0x2F || op == 0x37 || op == 0x3F || op == 0xF3
            || op == 0xFB {
            op_misc(self, op)
        } else if op == 0x76 {
            op_76(self, op)
        } else if 0x40 <= op && op < 0x80 {
            op_ld_r_r(self, op)
        } else if 0x80 <= op && op < 0xC0 {
            op_alu_r(self, op)
        } else if op == 0x01 || op == 0x11 || op == 0x21 || op == 0x31 {
            op_ld_rr_d16(self, op)
        } else if op == 0x04 || op == 0x0C || op == 0x14 || op == 0x1C || op == 0x24 || op == 0x2C
            || op == 0x3C {
            op_inc_r(self, op)
        } else if op == 0x05 || op == 0x0D || op == 0x15 || op == 0x1D || op == 0x25 || op == 0x2D
            || op == 0x3D {
            op_dec_r(self, op)
        } else if op == 0x06 || op == 0x0E || op == 0x16 || op == 0x1E || op == 0x26 || op == 0x2E
            || op == 0x3E {
            op_ld_r_d8(self, op)
        } else if op == 0x36 {
            op_ld_hl_d8(self, op)
        } else if op == 0x07 || op == 0x0F || op == 0x17 || op == 0x1F {
            op_rot_a(self, op)
        } else if op == 0x03 || op == 0x13 || op == 0x23 || op == 0x33 {
            op_inc_rr(self, op)
        } else if op == 0x0B || op == 0x1B || op == 0x2B || op == 0x3B {
            op_dec_rr(self, op)
        } else if op == 0x09 || op == 0x19 || op == 0x29 || op == 0x39 {
            op_add_hl_rr(self, op)
        } else if op == 0xC5 || op == 0xD5 || op == 0xE5 || op == 0xF5 {
            op_push_rr(self, op)
        } else if op == 0xC1 || op == 0xD1 || op == 0xE1 || op == 0xF1 {
            op_pop_rr(self, op)
        } else if op == 0x08 {
            op_store_nn_sp(self, op)
        } else if op == 0xFA {
            op_ld_a_nn(self, op)
        } else if op == 0xEA {
            op_ld_nn_a(self, op)
        } else if op == 0xC6 || op == 0xCE || op == 0xD6 || op == 0xDE || op == 0xE6 || op == 0xEE
            || op == 0xF6 || op == 0xFE {
            op_alu_d8(self, op)
        } else if op == 0xE0 || op == 0xF0 || op == 0xE2 || op == 0xF2 {
            op_ldh(self, op)
        } else if op == 0xF8 {
            op_ld_hl_sp_e(self, op)
        } else if op == 0xF9 {
            op_ld_sp_hl(self, op)
        } else if op == 0x18 || op == 0x20 || op == 0x28 || op == 0x30 || op == 0x38 {
            op_jr(self, op)
        } else if op == 0xC3 || op == 0xC2 || op == 0xCA || op == 0xD2 || op == 0xDA || op == 0xE9 {
            op_jp(self, op)
        } else if op == 0xCD || op == 0xC4 || op == 0xCC || op == 0xD4 || op == 0xDC {
            op_call(self, op)
        } else if op == 0xC9 || op == 0xD9 || op == 0xC0 || op == 0xC8 || op == 0xD0 || op == 0xD8 {
            op_ret(self, op)
        } else if op == 0xC7 || op == 0xCF || op == 0xD7 || op == 0xDF || op == 0xE7 || op == 0xEF
            || op == 0xF7 || op == 0xFF {
            op_rst(self, op)
        } else if op == 0x0A || op == 0x1A {
            op_ld_a_rr_ind(self, op)
        } else if op == 0x02 || op == 0x12 {
            op_ld_rr_ind_a(self, op)
        } else if op == 0x22 || op == 0x2A || op == 0x32 || op == 0x3A {
            op_ld_hl_incdec_a(self, op)
        } else if op == 0x34 || op == 0x35 {
            op_incdec_hl_mem(self, op)
        } else if op == 0xE8 {
            op_add_sp(self, op)
        } else if op == 0xCB {
            op_cb(self, op)
        } else {
            // The undecoded opcodes: execution must stop loudly, or every
            // peripheral's cycle accounting desynchronizes.
            return Err(CoreError::UnknownOpcode(op, opaddr));
        };
        Ok(c)
    }

    /// Executes exactly one instruction — or one halted no-op tick, or one
    /// interrupt dispatch — and returns the elapsed hardware clock ticks
    /// (four per machine cycle). An opcode the engine does not decode is
    /// fatal and is reported with the opcode byte and its address.
    pub fn step(&mut self) -> (r: Result<u32, CoreError>)
        requires
            old(self).wf(),
        ensures
            final(self).wf(),
            final(self)@ == spec_step(old(self)@).state,
            ({
                let st = spec_step(old(self)@);
                match r {
                    Ok(c) => st.fault is None && c == 4 * st.mc && c <= 24,
                    Err(e) => st.fault is Some && e == CoreError::UnknownOpcode(
                        st.fault->Some_0.0,
                        st.fault->Some_0.1,
                    ),
                }
            }),
    {
        proof {
            reveal(spec_step);
        }
        self.updateime();
        let ic = self.handleinterrupt();
        if ic != 0 {
            return Ok(ic * 4);
        }
        if self.halted {
            // A halted core with nothing pending: a one-machine-cycle no-op.
            return Ok(4);
        }
        match self.call() {
            Ok(c) => Ok(c * 4),
            Err(e) => Err(e),
        }
    }
}

/// What one full cycle does: the state after it, the effective cycle budget
/// handed to the peripherals (and returned), and the fault if the step hit
/// one.
#[verifier::ext_equal]
pub ghost struct CycleOut {
    pub state: CpuModel,
    pub ticks: u32,
    pub fault: Option<(u8, u16)>,
}

/// One full cycle: one engine step, whose hardware-clock cost — scaled down
/// by the double-speed divider — becomes the budget every peripheral
/// advances by. The timer and the pixel processor consume the budget in
/// turn, the request bits their fellow peripherals (serial, joypad) raised
/// are folded into the interrupt-request register, and the sound peripheral
/// accounts for the same budget.
pub open spec fn spec_do_cycle(s: CpuModel) -> CycleOut {
    let st = spec_step(s);
    if st.fault is Some {
        CycleOut { state: st.state, ticks: 0, fault: st.fault }
    } else {
        let s1 = st.state;
        let eff = (4 * st.mc) as u32 / s1.mem.speed as u32;
        let tt = spec_timer_tick(s1.timer, s1.mem, eff as u8);
        let gg = spec_gpu_step(s1.gpu, tt.1, eff as u8);
        let m2 = gg.1;
        let m3 = MemModel {
            io: m2.io.update(0x0F, m2.io[0x0F] | m2.serial.interrupt | m2.keypad.interrupt),
            serial: (Serial { interrupt: 0, ..m2.serial }),
            keypad: (Keypad { interrupt: 0, ..m2.keypad }),
            ..m2
        };
        let snd = if s1.sound.on {
            Sound { cycle_accum: s1.sound.cycle_accum.wrapping_add(eff as u8 as u32), ..s1.sound }
        } else {
            s1.sound
        };
        CycleOut {
            state: CpuModel { mem: m3, timer: tt.0, gpu: gg.0, sound: snd, ..s1 },
            ticks: eff,
            fault: None,
        }
    }
}

impl CPU {
    /// One full cycle: one engine step plus the cycle-budget handoff to every
    /// peripheral; returns the effective budget. See `spec_do_cycle`.
    pub fn do_cycle(&mut self) -> (r: Result<u32, CoreError>)
        requires
            old(self).wf(),
        ensures
            final(self).wf(),
            final(self)@ == spec_do_cycle(old(self)@).state,
            ({
                let cy = spec_do_cycle(old(self)@);
                match r {
                    Ok(t) => cy.fault is None && t == cy.ticks,
                    Err(e) => cy.fault is Some && e == CoreError::UnknownOpcode(
                        cy.fault->Some_0.0,
                        cy.fault->Some_0.1,
                    ),
                }
            }),
    {
        let ticks = match self.step() {
            Ok(t) => t,
            Err(e) => {
                return Err(e);
            },
        };
        let eff = ticks / (self.memory.speed as u32);
        let effb = eff as u8;
        self.timer.tick(&mut self.memory, effb);
        self.gpu.step(&mut self.memory, effb);
        let iflag = self.memory.io_registers[0x0F];
        self.memory.io_registers[0x0F] = iflag | self.memory.serial.interrupt
            | self.memory.keypad.interrupt;
        self.memory.serial.interrupt = 0;
        self.memory.keypad.interrupt = 0;
        self.sound.advance(effb);
        proof {
            assert(self@ =~= spec_do_cycle(old(self)@).state);
        }
        Ok(eff)
    }
}

/// The bit-level behavior of the flag-rewrite chains: reading a condition
/// bit back returns the bool that was written, and bits outside the rewrite
/// survive. The chains are spelled out exactly as the flag helpers compute
/// them.
proof fn lemma_bit_chain(f: u8, z: bool, n: bool, h: bool, c: bool)
    by (bit_vector)
    ensures
        ({
            let f1 = if z { f | 0x80 } else { f & !0x80u8 };
            let f2 = if n { f1 | 0x40 } else { f1 & !0x40u8 };
            let f3 = if h { f2 | 0x20 } else { f2 & !0x20u8 };
            let f4 = if c { f3 | 0x10 } else { f3 & !0x10u8 };
            &&& (f4 & 0x80 != 0) == z
            &&& (f4 & 0x40 != 0) == n
            &&& (f4 & 0x20 != 0) == h
            &&& (f4 & 0x10 != 0) == c
            &&& (f3 & 0x80 != 0) == z
            &&& (f3 & 0x40 != 0) == n
            &&& (f3 & 0x20 != 0) == h
            &&& (f3 & 0x10 != 0) == (f & 0x10 != 0)
        }),
        ({
            let g1 = if c { f | 0x10 } else { f & !0x10u8 };
            let g2 = g1 & !0x20u8;
            let g3 = if z { g2 | 0x80 } else { g2 & !0x80u8 };
            (g3 & 0x10 != 0) == c
        }),
{
}

/// Reading a condition bit back from the canonical flag rewrites returns
/// exactly the bit that was written; a rewrite that does not name the carry
/// flag keeps it.
pub proof fn lemma_flags_bits(f: u8, z: bool, n: bool, h: bool, c: bool)
    ensures
        flag_set(spec_flags_znhc(f, z, n, h, c), Flag::Z) == z,
        flag_set(spec_flags_znhc(f, z, n, h, c), Flag::N) == n,
        flag_set(spec_flags_znhc(f, z, n, h, c), Flag::H) == h,
        flag_set(spec_flags_znhc(f, z, n, h, c), Flag::C) == c,
        flag_set(spec_flags_znh(f, z, n, h), Flag::Z) == z,
        flag_set(spec_flags_znh(f, z, n, h), Flag::N) == n,
        flag_set(spec_flags_znh(f, z, n, h), Flag::H) == h,
        flag_set(spec_flags_znh(f, z, n, h), Flag::C) == flag_set(f, Flag::C),
{
    lemma_bit_chain(f, z, n, h, c);
}

/// Decrementing the increment of any 8-bit value returns the value, and the
/// increment's half-carry flag is set exactly when the low nibble was `0xF`.
pub proof fn lemma_inc_dec_roundtrip(reg: Registers, a: u8)
    ensures
        spec_alu_dec(spec_alu_inc(reg, a).0, spec_alu_inc(reg, a).1).1 == a,
        flag_set(spec_alu_inc(reg, a).0.f, Flag::H) == ((a & 0x0F) == 0x0F),
{
    assert(a.wrapping_add(1).wrapping_sub(1) == a && (((a & 0x0F) + 1 > 0x0F) <==> (a & 0x0F)
        == 0x0F)) by (bit_vector);
    lemma_flags_bits(reg.f, a.wrapping_add(1) == 0, false, (a & 0x0F) + 1 > 0x0F, false);
}

/// Whether a byte is valid packed two-digit BCD.
pub open spec fn is_bcd(a: u8) -> bool {
    a & 0x0F <= 9 && (a >> 4) <= 9
}

/// The decimal value a packed-BCD byte stands for.
pub open spec fn bcd_value(a: u8) -> int {
    (a >> 4) * 10 + (a & 0x0F)
}

/// An add into the accumulator followed immediately by a decimal adjust,
/// with both operands valid two-digit BCD, leaves the accumulator holding
/// the BCD sum modulo one hundred, and sets the carry flag exactly when the
/// true decimal sum reached one hundred. The adjust corrects using the add's
/// own half-carry/carry/subtract flags.
pub proof fn lemma_add_daa_bcd(reg: Registers, n: u8)
    requires
        is_bcd(reg.a),
        is_bcd(n),
    ensures
        ({
            let r = spec_alu_daa(spec_alu_add(reg, n, false));
            &&& is_bcd(r.a)
            &&& bcd_value(r.a) == (bcd_value(reg.a) + bcd_value(n)) % 100
            &&& flag_set(r.f, Flag::C) == (bcd_value(reg.a) + bcd_value(n) >= 100)
        }),
{
    let a = reg.a;
    let s1 = spec_alu_add(reg, n, false);
    let r1 = a.wrapping_add(n).wrapping_add(0);
    let carry = a + n + 0u8 > 0xFF;
    let h = (a & 0xF) + (n & 0xF) + 0u8 > 0xF;
    lemma_flags_bits(reg.f, r1 == 0, false, h, carry);
    assert(s1.a == r1);
    assert(flag_set(s1.f, Flag::C) == carry);
    assert(flag_set(s1.f, Flag::H) == h);
    assert(!flag_set(s1.f, Flag::N));
    let r = spec_alu_daa(s1);
    let adjust0: u8 = if carry { 0x60u8 } else { 0x00u8 };
    let adjust1: u8 = if h { adjust0 | 0x06 } else { adjust0 };
    let x: u8 = if r1 & 0x0F > 0x09 { adjust1 | 0x06 } else { adjust1 };
    let adjust: u8 = if r1 > 0x99 { x | 0x60 } else { x };
    let r2 = r1.wrapping_add(adjust);
    assert(r.a == r2);
    lemma_bit_chain(s1.f, r2 == 0, false, false, adjust >= 0x60);
    assert(flag_set(r.f, Flag::C) == (adjust >= 0x60));
    assert(({
        let rr1 = a.wrapping_add(n);
        let ca = a + n > 0xFF;
        let hh = (a & 0x0F) + (n & 0x0F) > 0x0F;
        let j0: u8 = if ca { 0x60u8 } else { 0x00u8 };
        let j1: u8 = if hh { j0 | 0x06 } else { j0 };
        let j2: u8 = if rr1 & 0x0F > 0x09 { j1 | 0x06 } else { j1 };
        let j3: u8 = if rr1 > 0x99 { j2 | 0x60 } else { j2 };
        let rr2 = rr1.wrapping_add(j3);
        &&& rr2 & 0x0F <= 9
        &&& rr2 >> 4 <= 9
        &&& (rr2 >> 4) * 10 + (rr2 & 0x0F) == ((a >> 4) * 10 + (a & 0x0F) + (n >> 4) * 10 + (n
            & 0x0F)) % 100
        &&& (j3 >= 0x60) == ((a >> 4) * 10 + (a & 0x0F) + (n >> 4) * 10 + (n & 0x0F) >= 100)
    })) by (bit_vector)
        requires
            a & 0x0F <= 9,
            a >> 4 <= 9,
            n & 0x0F <= 9,
            n >> 4 <= 9,
    ;
}

/// The halt bug: executing halt while an enabled interrupt is requested and
/// the master-enable flag is clear arms the one-shot flag, so the following
/// opcode fetch returns the byte at the program counter without advancing
/// it, and clears the flag again.
pub proof fn lemma_halt_bug(s: CpuModel)
    requires
        !s.ime,
        s.mem.io[0x0F] & s.mem.interrupt_enable & 0x1F != 0,
    ensures
        spec_op_halt(s).halt_bug,
        spec_fetchbyte(spec_op_halt(s)).0.reg.pc == s.reg.pc,
        spec_fetchbyte(spec_op_halt(s)).1 == spec_rb(s.mem, s.reg.pc),
        !spec_fetchbyte(spec_op_halt(s)).0.halt_bug,
{
}

} // verus!
