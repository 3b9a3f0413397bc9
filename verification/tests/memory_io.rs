// Address-space behavior: the region partition, bank-controller decode,
// DMA, echo RAM, external-RAM gating and the peripherals behind the I/O
// block.

use gbe_core::cpu::CPU;
use gbe_core::device::Device;
use gbe_core::interrupts::{Interrupt, highest_pending_interrupt};
use gbe_core::keypad::KeypadKey;
use gbe_core::mmu::{MBCType, Memory};

fn rom_image(mbc_code: u8, banks: usize) -> Vec<u8> {
    let mut rom = vec![0u8; 0x4000 * banks];
    rom[0x147] = mbc_code;
    let mut v: u8 = 0;
    for i in 0x134..0x14D {
        v = v.wrapping_sub(rom[i]).wrapping_sub(1);
    }
    rom[0x14D] = v;
    rom
}

#[test]
fn no_controller_rom_write_passthrough() {
    // No-controller cartridge with a 0x8000-byte image: a write of 0xA to
    // 0x0000 is accepted as a raw buffer write without altering bank
    // selection, and a read at 0x4000 returns the image byte at 0x4000.
    let mut rom = rom_image(0x00, 2);
    rom[0x4000] = 0x5A;
    let mut dev = Device::new_from_buffer(rom, false).unwrap();
    assert!(matches!(dev.cpu.memory.mbc_type, MBCType::NoController));
    let bank_before = dev.cpu.memory.rom_bank;
    dev.write_byte(0x0000, 0xA);
    assert_eq!(dev.read_byte(0x0000), 0xA);
    assert_eq!(dev.cpu.memory.rom_bank, bank_before);
    assert_eq!(dev.read_byte(0x4000), 0x5A);
}

#[test]
fn banked_controller_coerces_bank_zero_to_one() {
    // Banked controller: writing 0x00 to 0x2000 selects bank 1, never bank
    // 0, so a read at 0x4000 returns bank-1 data.
    let mut rom = rom_image(0x01, 4);
    rom[0x4000] = 0x11; // first byte of bank 1
    rom[0x8000] = 0x22; // first byte of bank 2
    let mut dev = Device::new_from_buffer(rom, false).unwrap();
    assert!(matches!(dev.cpu.memory.mbc_type, MBCType::MBC1));
    dev.write_byte(0x2000, 0x00);
    assert_eq!(dev.cpu.memory.rom_bank, 1);
    assert_eq!(dev.read_byte(0x4000), 0x11);
    dev.write_byte(0x2000, 0x02);
    assert_eq!(dev.cpu.memory.rom_bank, 2);
    assert_eq!(dev.read_byte(0x4000), 0x22);
}

#[test]
fn banked_controller_bank_index_reduced_modulo() {
    // Selecting a bank past the image wraps modulo the physical bank count.
    let rom = rom_image(0x01, 4);
    let mut dev = Device::new_from_buffer(rom, false).unwrap();
    dev.write_byte(0x2000, 0x05); // 5 % 4 == 1
    assert_eq!(dev.cpu.memory.rom_bank, 1);
    dev.write_byte(0x2000, 0x07); // 7 % 4 == 3
    assert_eq!(dev.cpu.memory.rom_bank, 3);
}

#[test]
fn external_ram_gated_by_enable() {
    let rom = rom_image(0x01, 2);
    let mut dev = Device::new_from_buffer(rom, false).unwrap();
    // Disabled: reads return 0xFF and writes are dropped.
    dev.write_byte(0xA000, 0x77);
    assert_eq!(dev.read_byte(0xA000), 0xFF);
    assert!(!dev.check_ram_updated_status());
    // Enable via the 0x0000-0x1FFF register: low nibble 0xA.
    dev.write_byte(0x0000, 0x0A);
    dev.write_byte(0xA000, 0x77);
    assert_eq!(dev.read_byte(0xA000), 0x77);
    assert!(dev.check_and_reset_ram_updated());
    assert!(!dev.check_ram_updated_status());
    // Disable again: the stored byte is hidden.
    dev.write_byte(0x0000, 0x00);
    assert_eq!(dev.read_byte(0xA000), 0xFF);
}

#[test]
fn banking_mode_selects_ram_bank() {
    let rom = rom_image(0x01, 2);
    let mut dev = Device::new_from_buffer(rom, false).unwrap();
    dev.write_byte(0x0000, 0x0A); // enable RAM
    dev.write_byte(0x6000, 0x01); // banking mode 1
    assert_eq!(dev.cpu.memory.banking_mode, 1);
    dev.write_byte(0xA000, 0x31); // bank 0
    dev.write_byte(0x4000, 0x01); // select RAM bank 1
    assert_eq!(dev.cpu.memory.ram_bank, 1);
    dev.write_byte(0xA000, 0x32); // bank 1
    assert_eq!(dev.read_byte(0xA000), 0x32);
    dev.write_byte(0x4000, 0x00); // back to bank 0
    assert_eq!(dev.read_byte(0xA000), 0x31);
}

#[test]
fn echo_ram_aliases_work_ram() {
    let mut cpu = CPU::new();
    cpu.write_byte(0xC001, 0xAB);
    assert_eq!(cpu.read_byte(0xE001), 0xAB);
    cpu.write_byte(0xE002, 0xCD);
    assert_eq!(cpu.read_byte(0xC002), 0xCD);
}

#[test]
fn unusable_range_reads_ff_and_drops_writes() {
    let mut cpu = CPU::new();
    cpu.write_byte(0xFEA5, 0x12);
    assert_eq!(cpu.read_byte(0xFEA5), 0xFF);
}

#[test]
fn dma_copies_160_bytes_into_oam() {
    let mut cpu = CPU::new();
    for i in 0..0xA0u16 {
        cpu.write_byte(0xC200 + i, (i as u8).wrapping_mul(3));
    }
    cpu.write_byte(0xFF46, 0xC2);
    for i in 0..0xA0u16 {
        assert_eq!(cpu.read_byte(0xFE00 + i), (i as u8).wrapping_mul(3));
    }
    assert_eq!(cpu.read_byte(0xFF46), 0xC2);
}

#[test]
fn interrupt_enable_byte_is_plain() {
    let mut cpu = CPU::new();
    cpu.write_byte(0xFFFF, 0x15);
    assert_eq!(cpu.read_byte(0xFFFF), 0x15);
    assert_eq!(cpu.memory.interrupt_enable, 0x15);
}

#[test]
fn highest_pending_picks_lowest_bit() {
    let mut mem = Memory::new();
    mem.interrupt_enable = 0xFF;
    mem.io_registers[0x0F] = 0b0001_0011;
    assert_eq!(highest_pending_interrupt(&mem), Some(Interrupt::VBlank));
    mem.io_registers[0x0F] = 0b0001_0010;
    assert_eq!(highest_pending_interrupt(&mem), Some(Interrupt::LCDStat));
    mem.io_registers[0x0F] = 0b0001_0000;
    assert_eq!(highest_pending_interrupt(&mem), Some(Interrupt::Joypad));
    mem.io_registers[0x0F] = 0;
    assert_eq!(highest_pending_interrupt(&mem), None);
    mem.interrupt_enable = 0;
    mem.io_registers[0x0F] = 0xFF;
    assert_eq!(highest_pending_interrupt(&mem), None);
}

#[test]
fn timer_counts_and_overflows_into_request_bit() {
    let mut cpu = CPU::new();
    // Rate field 1: one timer increment each 16 cycles; enable bit set.
    cpu.write_byte(0xFF07, 0x05);
    cpu.write_byte(0xFF05, 0xFE);
    cpu.write_byte(0xFF06, 0xAB); // modulo register
    // NOPs: each do_cycle is 4 cycles, so 4 cycles per step.
    cpu.registers.pc = 0xC100;
    for _ in 0..4 {
        cpu.do_cycle().unwrap();
    }
    assert_eq!(cpu.read_byte(0xFF05), 0xFF);
    for _ in 0..4 {
        cpu.do_cycle().unwrap();
    }
    // Overflow: reloaded from the modulo register, request bit 2 raised.
    assert_eq!(cpu.read_byte(0xFF05), 0xAB);
    assert_eq!(cpu.read_byte(0xFF0F) & 0x04, 0x04);
}

#[test]
fn divider_register_is_high_byte_of_clock() {
    let mut cpu = CPU::new();
    cpu.registers.pc = 0xC100;
    // 64 NOP cycles of 4 ticks: divider clock 256, register reads 1.
    for _ in 0..64 {
        cpu.do_cycle().unwrap();
    }
    assert_eq!(cpu.read_byte(0xFF04), 1);
}

#[test]
fn gpu_raises_vblank_once_per_frame() {
    let mut dev = Device::new_from_buffer(rom_image(0x00, 2), false).unwrap();
    dev.cpu.registers.pc = 0xC100; // NOP slide in zeroed work RAM
    dev.cpu.memory.interrupt_enable = 0; // nothing dispatches
    // One full frame: 456 cycles per line, 144 visible lines.
    let cycles_per_frame = 456 * 154;
    let mut ran: u32 = 0;
    while ran < cycles_per_frame {
        ran += dev.do_cycle().unwrap();
    }
    assert!(dev.read_byte(0xFF0F) & 0x01 == 0x01);
    assert!(dev.check_and_reset_gpu_updated());
    assert!(!dev.check_and_reset_gpu_updated()); // cleared once read
}

#[test]
fn serial_transfer_completes_instantly() {
    let mut cpu = CPU::new();
    cpu.registers.pc = 0xC100;
    cpu.write_byte(0xFF01, 0x99);
    assert_eq!(cpu.read_byte(0xFF01), 0x99);
    cpu.write_byte(0xFF02, 0x81);
    // Unused control bits read back as ones.
    assert_eq!(cpu.read_byte(0xFF02), 0x81 | 0x7E);
    // The raised request bit is folded in on the next cycle.
    cpu.do_cycle().unwrap();
    assert_eq!(cpu.read_byte(0xFF0F) & 0x08, 0x08);
}

#[test]
fn joypad_register_reflects_held_keys() {
    let mut dev = Device::new_from_buffer(rom_image(0x00, 2), false).unwrap();
    // Select the button group (bit 5 cleared) and hold A.
    dev.keydown(KeypadKey::A);
    dev.write_byte(0xFF00, 0x10);
    let v = dev.read_byte(0xFF00);
    assert_eq!(v & 0x01, 0); // A reads as zero while held
    dev.keyup(KeypadKey::A);
    let v2 = dev.read_byte(0xFF00);
    assert_eq!(v2 & 0x01, 0x01);
    // With the direction group selected instead, a held button is invisible.
    dev.keydown(KeypadKey::A);
    dev.write_byte(0xFF00, 0x20);
    let v3 = dev.read_byte(0xFF00);
    assert_eq!(v3 & 0x01, 0x01);
}

#[test]
fn rejects_short_and_corrupt_cartridges() {
    let short = vec![0u8; 0x100];
    assert_eq!(
        Device::new_from_buffer(short, false).err(),
        Some(gbe_core::CoreError::InvalidCartridge)
    );
    let mut bad = rom_image(0x00, 2);
    bad[0x14D] = bad[0x14D].wrapping_add(1);
    assert_eq!(
        Device::new_from_buffer(bad.clone(), false).err(),
        Some(gbe_core::CoreError::InvalidCartridge)
    );
    // Relaxed enforcement accepts the same image.
    assert!(Device::new_from_buffer(bad, true).is_ok());
}
