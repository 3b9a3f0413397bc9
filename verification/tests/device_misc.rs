// Device-level behavior: register pairs, the snapshot codec round trip,
// RAM dumps, the header title, configuration data and reserved keys.

use gbe_core::config::{Config, RenderOptions, TurboSetting};
use gbe_core::device::Device;
use gbe_core::input::is_reserved_key_name;
use gbe_core::registers::{Flag, Registers};

fn rom_image(mbc_code: u8, banks: usize) -> Vec<u8> {
    let mut rom = vec![0u8; 0x4000 * banks];
    let title = b"POCKET";
    for (i, &b) in title.iter().enumerate() {
        rom[0x134 + i] = b;
    }
    rom[0x147] = mbc_code;
    let mut v: u8 = 0;
    for i in 0x134..0x14D {
        v = v.wrapping_sub(rom[i]).wrapping_sub(1);
    }
    rom[0x14D] = v;
    rom
}

#[test]
fn register_pairs_roundtrip() {
    let mut r = Registers::new();
    r.set_bc(0xABCD);
    assert_eq!(r.get_bc(), 0xABCD);
    r.set_de(0x1234);
    assert_eq!(r.get_de(), 0x1234);
    r.set_hl(0xFFEE);
    assert_eq!(r.get_hl(), 0xFFEE);
    // AF always reads back with the low nibble grounded to zero.
    r.set_af(0xABCD);
    assert_eq!(r.get_af(), 0xABC0);
    assert_eq!(r.get_af() & 0x000F, 0);
    r.set_af(0xFFFF);
    assert_eq!(r.get_af() & 0x000F, 0);
}

#[test]
fn flag_bits_set_and_clear() {
    let mut r = Registers::new();
    r.set_flag(Flag::Z, true);
    r.set_flag(Flag::C, true);
    assert!(r.get_flag(Flag::Z));
    assert!(r.get_flag(Flag::C));
    assert!(!r.get_flag(Flag::N));
    assert!(!r.get_flag(Flag::H));
    r.set_flag(Flag::Z, false);
    assert!(!r.get_flag(Flag::Z));
    assert!(r.get_flag(Flag::C));
    assert_eq!(r.f, 0x10);
}

#[test]
fn snapshot_roundtrip_restores_state_bit_identically() {
    let mut dev = Device::new_from_buffer(rom_image(0x01, 2), false).unwrap();
    // Disturb plenty of state first.
    dev.write_byte(0x0000, 0x0A); // enable RAM
    dev.write_byte(0xA010, 0x42);
    dev.write_byte(0xC345, 0x77);
    dev.write_byte(0x9000, 0x3C);
    dev.write_byte(0xFF05, 0x09);
    dev.cpu.registers.pc = 0xC100;
    for _ in 0..500 {
        dev.do_cycle().unwrap();
    }
    let blob = dev.save_state();
    let copy = Device::load_state(blob.as_slice()).unwrap();
    // Register file, run state, memory contents and peripheral counters are
    // bit-identical.
    assert_eq!(copy.cpu.registers, dev.cpu.registers);
    assert_eq!(copy.cpu.halted, dev.cpu.halted);
    assert_eq!(copy.cpu.ime, dev.cpu.ime);
    assert_eq!(copy.cpu.memory.rom, dev.cpu.memory.rom);
    assert_eq!(copy.cpu.memory.vram, dev.cpu.memory.vram);
    assert_eq!(copy.cpu.memory.external_ram, dev.cpu.memory.external_ram);
    assert_eq!(copy.cpu.memory.wram, dev.cpu.memory.wram);
    assert_eq!(copy.cpu.memory.oam, dev.cpu.memory.oam);
    assert_eq!(copy.cpu.memory.io_registers, dev.cpu.memory.io_registers);
    assert_eq!(copy.cpu.memory.hram, dev.cpu.memory.hram);
    assert_eq!(copy.cpu.memory.rom_bank, dev.cpu.memory.rom_bank);
    assert_eq!(copy.cpu.memory.ram_enabled, dev.cpu.memory.ram_enabled);
    assert_eq!(copy.cpu.timer.div_counter, dev.cpu.timer.div_counter);
    assert_eq!(copy.cpu.gpu.scanline_counter, dev.cpu.gpu.scanline_counter);
    assert_eq!(copy.cpu.gpu.framebuffer, dev.cpu.gpu.framebuffer);
    // Continuing both yields cycle-identical behavior.
    let mut a = dev;
    let mut b = copy;
    for _ in 0..500 {
        let ta = a.do_cycle().unwrap();
        let tb = b.do_cycle().unwrap();
        assert_eq!(ta, tb);
    }
    assert_eq!(a.cpu.registers, b.cpu.registers);
    assert_eq!(a.cpu.memory.wram, b.cpu.memory.wram);
    assert_eq!(a.cpu.gpu.framebuffer, b.cpu.gpu.framebuffer);
}

#[test]
fn corrupt_snapshot_is_rejected() {
    let dev = Device::new_from_buffer(rom_image(0x00, 2), false).unwrap();
    let mut blob = dev.save_state();
    // Foreign magic.
    let mut foreign = blob.clone();
    foreign[0] = b'X';
    assert_eq!(
        Device::load_state(foreign.as_slice()).err(),
        Some(gbe_core::CoreError::CorruptState)
    );
    // Truncated blob.
    blob.truncate(100);
    assert_eq!(
        Device::load_state(blob.as_slice()).err(),
        Some(gbe_core::CoreError::CorruptState)
    );
    // Far too short for a header.
    assert_eq!(
        Device::load_state(&[1, 2, 3]).err(),
        Some(gbe_core::CoreError::CorruptState)
    );
}

#[test]
fn romname_reads_header_title() {
    let dev = Device::new_from_buffer(rom_image(0x00, 2), false).unwrap();
    assert_eq!(dev.romname(), "POCKET");
}

#[test]
fn dumpram_and_loadram_roundtrip() {
    let mut dev = Device::new_from_buffer(rom_image(0x03, 2), false).unwrap();
    assert!(dev.ram_is_battery_backed());
    dev.write_byte(0x0000, 0x0A);
    dev.write_byte(0xA000, 0x11);
    dev.write_byte(0xA001, 0x22);
    let dump = dev.dumpram();
    assert_eq!(dump.len(), 0x8000);
    assert_eq!(dump[0], 0x11);
    assert_eq!(dump[1], 0x22);
    let mut other = Device::new_from_buffer(rom_image(0x03, 2), false).unwrap();
    other.write_byte(0x0000, 0x0A);
    other.loadram(dump.as_slice()).unwrap();
    assert_eq!(other.read_byte(0xA000), 0x11);
    assert_eq!(other.read_byte(0xA001), 0x22);
    // A wrong-length dump is rejected and nothing changes.
    assert_eq!(
        other.loadram(&[0u8; 16]).err(),
        Some(gbe_core::CoreError::CorruptState)
    );
    assert_eq!(other.read_byte(0xA000), 0x11);
}

#[test]
fn battery_flag_follows_controller_byte() {
    let plain = Device::new_from_buffer(rom_image(0x01, 2), false).unwrap();
    assert!(!plain.ram_is_battery_backed());
    let battery = Device::new_from_buffer(rom_image(0x03, 2), false).unwrap();
    assert!(battery.ram_is_battery_backed());
}

#[test]
fn audio_accounting_follows_enable() {
    let mut dev = Device::new_from_buffer(rom_image(0x00, 2), false).unwrap();
    dev.cpu.registers.pc = 0xC100;
    dev.do_cycle().unwrap();
    assert_eq!(dev.cpu.sound.cycle_accum, 0); // off: nothing accumulates
    dev.enable_audio(true);
    dev.do_cycle().unwrap();
    assert_eq!(dev.cpu.sound.cycle_accum, 4);
    dev.sync_audio();
    assert_eq!(dev.cpu.sound.cycle_accum, 0);
}

#[test]
fn turbo_settings_enumerate_and_label() {
    let all = TurboSetting::all();
    assert_eq!(all.len(), 8);
    assert_eq!(all[0], TurboSetting::Quarter);
    assert_eq!(all[7], TurboSetting::Uncapped);
    assert_eq!(TurboSetting::Quarter.label(), "0.25x");
    assert_eq!(TurboSetting::Double.label(), "2x");
    assert_eq!(TurboSetting::Uncapped.label(), "Uncapped");
    assert_eq!(TurboSetting::default(), TurboSetting::Double);
}

#[test]
fn config_defaults() {
    let cfg = Config::default();
    assert_eq!(cfg.scale, 3);
    assert_eq!(cfg.turbo, TurboSetting::Double);
    assert_eq!(cfg.keybindings.a, "Z");
    assert_eq!(cfg.keybindings.start, "Enter");
    assert_eq!(cfg.keybindings.up, "ArrowUp");
    assert!(!RenderOptions::default().linear_interpolation);
}

#[test]
fn reserved_key_names_are_case_insensitive() {
    assert!(is_reserved_key_name("F1"));
    assert!(is_reserved_key_name("f8"));
    assert!(is_reserved_key_name("Shift"));
    assert!(is_reserved_key_name("SHIFT"));
    assert!(is_reserved_key_name("t"));
    assert!(is_reserved_key_name("Y"));
    assert!(!is_reserved_key_name("Z"));
    assert!(!is_reserved_key_name("F9"));
    assert!(!is_reserved_key_name("Enter"));
}
