// Engine-level behavior: instruction sequences on a synthetic cartridge,
// flag corner cases, the interrupt protocol and the halt bug.

use gbe_core::cpu::CPU;
use gbe_core::device::Device;
use gbe_core::registers::Flag;

/// A minimal valid cartridge image: `banks` ROM banks, a title, a
/// controller-type byte and a matching header checksum.
fn make_rom(mbc_code: u8, banks: usize) -> Vec<u8> {
    let mut rom = vec![0u8; 0x4000 * banks];
    let title = b"TESTCART";
    for (i, &b) in title.iter().enumerate() {
        rom[0x134 + i] = b;
    }
    rom[0x147] = mbc_code;
    let mut v: u8 = 0;
    for i in 0x134..0x14D {
        v = v.wrapping_sub(rom[i]).wrapping_sub(1);
    }
    rom[0x14D] = v;
    // Fill the entry region with NOPs so a fresh device idles harmlessly.
    rom
}

/// Writes a program into work RAM and points the program counter at it.
fn load_program(cpu: &mut CPU, program: &[u8]) {
    for (i, &b) in program.iter().enumerate() {
        cpu.write_byte(0xC100 + i as u16, b);
    }
    cpu.registers.pc = 0xC100;
}

#[test]
fn cpu_instrs_classic() {
    let rom = make_rom(0x00, 2);
    let mut dev = Device::new_from_buffer(rom, false).unwrap();
    // LD A,0x2A; LD B,0x11; ADD A,B; LD (0xC000),A; HALT
    load_program(&mut dev.cpu, &[0x3E, 0x2A, 0x06, 0x11, 0x80, 0xEA, 0x00, 0xC0, 0x76]);
    let mut ticks: u32 = 0;
    for _ in 0..200 {
        ticks += dev.do_cycle().unwrap();
    }
    assert_eq!(dev.read_byte(0xC000), 0x3B);
    assert_eq!(dev.cpu.registers.a, 0x3B);
    assert_eq!(dev.cpu.registers.b, 0x11);
    assert!(dev.cpu.halted);
    // 2 + 2 + 1 + 4 + 1 machine cycles of work, then one-cycle halted ticks.
    assert_eq!(ticks, 4 * (2 + 2 + 1 + 4 + 1) + 4 * (200 - 5));
    // The framebuffer is reachable and still blank: no frame completed yet.
    let fb = dev.get_gpu_data();
    assert_eq!(fb.len(), 160 * 144);
    let mut sum: u32 = 0;
    for (i, &px) in fb.iter().enumerate() {
        sum = sum.wrapping_add((px as u32).wrapping_mul(i as u32));
    }
    assert_eq!(sum, 0);
}

#[test]
fn cpu_instrs_color() {
    let rom = make_rom(0x00, 2);
    let mut dev = Device::new_cgb_from_buffer(rom, false).unwrap();
    assert_eq!(dev.cpu.registers.a, 0x11);
    assert!(dev.cpu.memory.cgb_mode);
    // SUB A,0x0F via immediate: LD A,0x11 already set; SUB d8 0x01; HALT.
    load_program(&mut dev.cpu, &[0xD6, 0x01, 0x76]);
    for _ in 0..50 {
        dev.do_cycle().unwrap();
    }
    assert_eq!(dev.cpu.registers.a, 0x10);
    assert!(dev.cpu.halted);
}

#[test]
fn inc_then_dec_returns_value() {
    let mut cpu = CPU::new();
    cpu.registers.a = 0x0F;
    load_program(&mut cpu, &[0x3C, 0x3D]); // INC A; DEC A
    cpu.step().unwrap();
    assert_eq!(cpu.registers.a, 0x10);
    assert!(cpu.registers.get_flag(Flag::H)); // (0x0F & 0xF) == 0xF
    cpu.step().unwrap();
    assert_eq!(cpu.registers.a, 0x0F);
}

#[test]
fn inc_half_carry_only_on_low_nibble_overflow() {
    let mut cpu = CPU::new();
    cpu.registers.a = 0x0E;
    load_program(&mut cpu, &[0x3C]); // INC A
    cpu.step().unwrap();
    assert_eq!(cpu.registers.a, 0x0F);
    assert!(!cpu.registers.get_flag(Flag::H));
}

#[test]
fn add_then_daa_produces_bcd_sum() {
    // 19 + 28 = 47, no decimal carry.
    let mut cpu = CPU::new();
    cpu.registers.a = 0x19;
    load_program(&mut cpu, &[0xC6, 0x28, 0x27]); // ADD A,0x28; DAA
    cpu.step().unwrap();
    assert_eq!(cpu.registers.a, 0x41);
    cpu.step().unwrap();
    assert_eq!(cpu.registers.a, 0x47);
    assert!(!cpu.registers.get_flag(Flag::C));

    // 91 + 19 = 110: accumulator 0x10, carry set.
    let mut cpu2 = CPU::new();
    cpu2.registers.a = 0x91;
    load_program(&mut cpu2, &[0xC6, 0x19, 0x27]);
    cpu2.step().unwrap();
    cpu2.step().unwrap();
    assert_eq!(cpu2.registers.a, 0x10);
    assert!(cpu2.registers.get_flag(Flag::C));
}

#[test]
fn interrupt_priority_selects_vblank() {
    // Requests on bits 0, 1 and 4 with everything enabled: bit 0 wins,
    // whatever order the bits were set in.
    let mut cpu = CPU::new();
    cpu.memory.interrupt_enable = 0xFF;
    cpu.memory.io_registers[0x0F] = 0b0001_0011;
    cpu.ime = true;
    cpu.registers.pc = 0xC100;
    cpu.registers.sp = 0xDFFE;
    let ticks = cpu.step().unwrap();
    assert_eq!(cpu.registers.pc, 0x0040);
    assert_eq!(ticks, 20); // five machine cycles
    assert_eq!(cpu.memory.io_registers[0x0F], 0b0001_0010); // bit 0 cleared

    // Same masks raised in the opposite order.
    let mut cpu2 = CPU::new();
    cpu2.memory.io_registers[0x0F] = 0b0001_0000;
    cpu2.memory.io_registers[0x0F] |= 0b0000_0010;
    cpu2.memory.io_registers[0x0F] |= 0b0000_0001;
    cpu2.memory.interrupt_enable = 0xFF;
    cpu2.ime = true;
    cpu2.registers.pc = 0xC100;
    cpu2.registers.sp = 0xDFFE;
    cpu2.step().unwrap();
    assert_eq!(cpu2.registers.pc, 0x0040);
}

#[test]
fn interrupt_dispatch_pushes_pc_and_clears_ime() {
    let mut cpu = CPU::new();
    cpu.memory.interrupt_enable = 0x04;
    cpu.memory.io_registers[0x0F] = 0x04; // timer
    cpu.ime = true;
    cpu.registers.pc = 0xC123;
    cpu.registers.sp = 0xDFFE;
    cpu.step().unwrap();
    assert_eq!(cpu.registers.pc, 0x0040 + 8 * 2);
    assert!(!cpu.ime);
    assert_eq!(cpu.registers.sp, 0xDFFC);
    assert_eq!(cpu.read_wide(0xDFFC), 0xC123);
}

#[test]
fn halt_bug_fetch_keeps_pc() {
    // Entering halt with a pending-but-masked interrupt: the next fetch does
    // not advance the program counter, so the byte 0x3E is read once as the
    // opcode LD A,d8 and once more as its own operand.
    let mut cpu = CPU::new();
    cpu.ime = false;
    cpu.memory.interrupt_enable = 0x01;
    cpu.memory.io_registers[0x0F] = 0x01;
    cpu.registers.b = 5;
    load_program(&mut cpu, &[0x76, 0x3E, 0x04]); // HALT; LD A,d8; (0x04 = INC B)
    cpu.step().unwrap(); // HALT: arms the halt bug
    assert!(cpu.halted);
    assert!(cpu.halt_bug);
    cpu.step().unwrap(); // LD A,d8 with the bug: operand is the opcode byte
    assert_eq!(cpu.registers.a, 0x3E);
    cpu.step().unwrap(); // the skipped operand byte now executes: INC B
    assert_eq!(cpu.registers.b, 6);

    // The same two bytes without the bug: A is loaded with the operand.
    let mut cpu2 = CPU::new();
    cpu2.registers.b = 5;
    load_program(&mut cpu2, &[0x3E, 0x04]);
    cpu2.step().unwrap();
    assert_eq!(cpu2.registers.a, 0x04);
    assert_eq!(cpu2.registers.b, 5);
}

#[test]
fn halted_core_ticks_one_cycle() {
    let mut cpu = CPU::new();
    load_program(&mut cpu, &[0x76]);
    cpu.ime = false;
    cpu.step().unwrap();
    assert!(cpu.halted);
    let ticks = cpu.step().unwrap();
    assert_eq!(ticks, 4);
    assert!(cpu.halted);
}

#[test]
fn unknown_opcode_is_fatal_with_diagnostic() {
    let mut cpu = CPU::new();
    load_program(&mut cpu, &[0xD3]);
    let r = cpu.step();
    assert_eq!(r, Err(gbe_core::CoreError::UnknownOpcode(0xD3, 0xC100)));
}

#[test]
fn enable_interrupts_is_delayed_one_instruction() {
    // EI takes effect only after the next instruction completes: a pending
    // interrupt does not dispatch on the instruction right after EI.
    let mut cpu = CPU::new();
    cpu.ime = false;
    cpu.memory.interrupt_enable = 0x01;
    cpu.memory.io_registers[0x0F] = 0x01;
    cpu.registers.sp = 0xDFFE;
    load_program(&mut cpu, &[0xFB, 0x00, 0x00]); // EI; NOP; NOP
    cpu.step().unwrap(); // EI
    assert!(!cpu.ime);
    cpu.step().unwrap(); // NOP; enable still counting down
    assert!(!cpu.ime);
    cpu.step().unwrap(); // master-enable comes on, dispatch happens now
    assert!(cpu.ime || cpu.registers.pc == 0x0040);
    assert_eq!(cpu.registers.pc, 0x0040);
}

#[test]
fn conditional_jump_costs_less_untaken() {
    let mut cpu = CPU::new();
    cpu.registers.set_flag(Flag::Z, false);
    load_program(&mut cpu, &[0xCA, 0x00, 0xD0]); // JP Z,0xD000 (untaken)
    let t = cpu.step().unwrap();
    assert_eq!(t, 12); // three machine cycles
    assert_eq!(cpu.registers.pc, 0xC103);

    let mut cpu2 = CPU::new();
    cpu2.registers.set_flag(Flag::Z, true);
    load_program(&mut cpu2, &[0xCA, 0x00, 0xD0]); // JP Z,0xD000 (taken)
    let t2 = cpu2.step().unwrap();
    assert_eq!(t2, 16); // four machine cycles
    assert_eq!(cpu2.registers.pc, 0xD000);
}

#[test]
fn push_pop_roundtrip_and_af_mask() {
    let mut cpu = CPU::new();
    cpu.registers.sp = 0xDFFE;
    cpu.registers.set_bc(0xBEEF);
    load_program(&mut cpu, &[0xC5, 0xF1]); // PUSH BC; POP AF
    cpu.step().unwrap();
    cpu.step().unwrap();
    assert_eq!(cpu.registers.get_af(), 0xBEE0); // low nibble grounded
}

#[test]
fn ld_hl_sp_relative_flags() {
    let mut cpu = CPU::new();
    cpu.registers.sp = 0xC0FF;
    load_program(&mut cpu, &[0xF8, 0x01]); // LD HL,SP+1
    cpu.step().unwrap();
    assert_eq!(cpu.registers.get_hl(), 0xC100);
    assert!(cpu.registers.get_flag(Flag::H));
    assert!(cpu.registers.get_flag(Flag::C));
    assert!(!cpu.registers.get_flag(Flag::Z));
}

#[test]
fn cb_prefixed_bit_operations() {
    let mut cpu = CPU::new();
    cpu.registers.a = 0b1000_0001;
    // RLC A; BIT 0,A; SET 3,A; RES 0,A
    load_program(&mut cpu, &[0xCB, 0x07, 0xCB, 0x47, 0xCB, 0xDF, 0xCB, 0x87]);
    cpu.step().unwrap();
    assert_eq!(cpu.registers.a, 0b0000_0011);
    assert!(cpu.registers.get_flag(Flag::C));
    cpu.step().unwrap();
    assert!(!cpu.registers.get_flag(Flag::Z)); // bit 0 is set
    cpu.step().unwrap();
    assert_eq!(cpu.registers.a, 0b0000_1011);
    cpu.step().unwrap();
    assert_eq!(cpu.registers.a, 0b0000_1010);
}
