//! The device: the core aggregate behind one handle, constructed from a raw
//! cartridge image, stepped one cycle at a time, and exposed to the host
//! through plain values (framebuffer bytes, key events, RAM dumps and
//! snapshot blobs). The host performs all file and screen I/O itself.

use vstd::prelude::*;
use crate::CoreError;
use crate::cpu::{CPU, CpuModel, boot_registers, boot_registers_cgb, cpu_init, cpu_rb, cpu_rw,
    cpu_wb, cpu_ww, spec_do_cycle};
use crate::keypad::{Keypad, KeypadKey, is_button, key_bit};
use crate::mmu::{MemModel, RAM_BANKS, RAM_BANK_SIZE, mem_init, spec_load_rom};
use crate::sound::Sound;

verus! {

/// Appends one character to a string. Relies on `String::push` of std, which
/// vstd gives no specification.
#[verifier::external_body]
fn string_push(s: &mut String, c: char)
    ensures
        final(s)@ == old(s)@.push(c),
{
    s.push(c)
}

/// The running header checksum over the title/header region, folded from the
/// region's start up to (excluding) a byte position: each byte subtracts
/// itself plus one, wrapping.
pub open spec fn spec_checksum_upto(data: Seq<u8>, i: int) -> u8
    decreases i,
{
    if i <= 0x134 {
        0u8
    } else {
        spec_checksum_upto(data, i - 1).wrapping_sub(data[i - 1]).wrapping_sub(1)
    }
}

/// Whether the cartridge header checksum byte matches the checksum of the
/// header region.
pub open spec fn spec_header_ok(data: Seq<u8>) -> bool {
    spec_checksum_upto(data, 0x14D) == data[0x14D]
}

/// Whether a cartridge image is accepted: long enough for a valid header,
/// and — unless checksum enforcement is relaxed — with a matching header
/// checksum.
pub open spec fn spec_cart_ok(data: Seq<u8>, skip_checksum: bool) -> bool {
    data.len() >= 0x150 && (skip_checksum || spec_header_ok(data))
}

/// The core a freshly constructed classic-mode device holds: power-on state,
/// the image loaded, post-boot registers, interrupts master-enabled.
pub open spec fn spec_new_device(data: Seq<u8>) -> CpuModel {
    CpuModel {
        reg: boot_registers(),
        mem: spec_load_rom(mem_init(), data),
        ime: true,
        ..cpu_init()
    }
}

/// The core a freshly constructed color-mode device holds.
pub open spec fn spec_new_device_cgb(data: Seq<u8>) -> CpuModel {
    CpuModel {
        reg: boot_registers_cgb(),
        mem: (MemModel { cgb_mode: true, ..spec_load_rom(mem_init(), data) }),
        ime: true,
        ..cpu_init()
    }
}

/// The title recorded in a cartridge header: the bytes of the title region
/// as characters, cut at the first zero byte, at most sixteen characters.
pub open spec fn spec_title_upto(rom: Seq<u8>, i: int) -> Seq<char>
    decreases i,
{
    if i <= 0 {
        Seq::empty()
    } else {
        let prev = spec_title_upto(rom, i - 1);
        if prev.len() < i - 1 || rom[0x134 + i - 1] == 0 {
            prev
        } else {
            prev.push(rom[0x134 + i - 1] as char)
        }
    }
}

/// The whole emulated device.
pub struct Device {
    /// The execution engine with everything it owns.
    pub cpu: CPU,
}

impl View for Device {
    type V = CpuModel;

    open spec fn view(&self) -> CpuModel {
        self.cpu@
    }
}

/// Validates a cartridge image: the length check and, unless relaxed, the
/// header checksum.
fn check_cartridge(romdata: &[u8], skip_checksum: bool) -> (r: bool)
    ensures
        r == spec_cart_ok(romdata@, skip_checksum),
{
    if romdata.len() < 0x150 {
        return false;
    }
    if skip_checksum {
        return true;
    }
    let mut v: u8 = 0;
    let mut i: usize = 0x134;
    while i < 0x14D
        invariant
            0x134 <= i <= 0x14D,
            romdata@.len() >= 0x150,
            v == spec_checksum_upto(romdata@, i as int),
        decreases 0x14D - i,
    {
        v = v.wrapping_sub(romdata[i]).wrapping_sub(1);
        i = i + 1;
    }
    v == romdata[0x14D]
}

impl Device {
    /// Well-formedness of the aggregate.
    pub open spec fn wf(&self) -> bool {
        self.cpu.wf()
    }

    /// Builds a classic-mode device from a raw cartridge image. The image is
    /// rejected — and nothing is constructed — exactly when it is too short
    /// for a valid header or, unless enforcement is relaxed, its header
    /// checksum does not match.
    pub fn new_from_buffer(romdata: Vec<u8>, skip_checksum: bool) -> (r: Result<Device, CoreError>)
        requires
            romdata@.len() <= 0x3FFF_0000,
        ensures
            match r {
                Ok(d) => spec_cart_ok(romdata@, skip_checksum) && d@ == spec_new_device(romdata@)
                    && d.wf(),
                Err(e) => !spec_cart_ok(romdata@, skip_checksum) && e
                    == CoreError::InvalidCartridge,
            },
    {
        if !check_cartridge(romdata.as_slice(), skip_checksum) {
            return Err(CoreError::InvalidCartridge);
        }
        let mut cpu = CPU::new();
        cpu.load_rom(romdata.as_slice());
        cpu.init();
        cpu.ime = true;
        let d = Device { cpu };
        proof {
            assert(d@ =~= spec_new_device(romdata@));
        }
        Ok(d)
    }

    /// Builds a color-mode device from a raw cartridge image; rejection is
    /// exactly as in the classic-mode constructor.
    pub fn new_cgb_from_buffer(romdata: Vec<u8>, skip_checksum: bool) -> (r: Result<
        Device,
        CoreError,
    >)
        requires
            romdata@.len() <= 0x3FFF_0000,
        ensures
            match r {
                Ok(d) => spec_cart_ok(romdata@, skip_checksum) && d@ == spec_new_device_cgb(
                    romdata@,
                ) && d.wf(),
                Err(e) => !spec_cart_ok(romdata@, skip_checksum) && e
                    == CoreError::InvalidCartridge,
            },
    {
        if !check_cartridge(romdata.as_slice(), skip_checksum) {
            return Err(CoreError::InvalidCartridge);
        }
        let mut cpu = CPU::new_cgb();
        cpu.load_rom(romdata.as_slice());
        let d = Device { cpu };
        proof {
            assert(d@ =~= spec_new_device_cgb(romdata@));
        }
        Ok(d)
    }

    /// One full engine-plus-peripherals cycle; see `spec_do_cycle`.
    pub fn do_cycle(&mut self) -> (r: Result<u32, CoreError>)
        requires
            old(self).wf(),
        ensures
            final(self).wf(),
            final(self)@ == spec_do_cycle(old(self)@).state,
            ({
                let cy = spec_do_cycle(old(self)@);
                match r {
                    Ok(t) => cy.fault is None && t == cy.ticks,
                    Err(e) => cy.fault is Some && e == CoreError::UnknownOpcode(
                        cy.fault->Some_0.0,
                        cy.fault->Some_0.1,
                    ),
                }
            }),
    {
        self.cpu.do_cycle()
    }

    /// Whether a frame completed since last checked; the flag clears once
    /// read.
    pub fn check_and_reset_gpu_updated(&mut self) -> (r: bool)
        requires
            old(self).wf(),
        ensures
            r == old(self)@.gpu.updated,
            final(self)@ == (CpuModel {
                gpu: (crate::gpu::GpuModel { updated: false, ..old(self)@.gpu }),
                ..old(self)@
            }),
            final(self).wf(),
    {
        let result = self.cpu.gpu.updated;
        self.cpu.gpu.updated = false;
        proof {
            assert(self@ =~= (CpuModel {
                gpu: (crate::gpu::GpuModel { updated: false, ..old(self)@.gpu }),
                ..old(self)@
            }));
        }
        result
    }

    /// The framebuffer: one palette index per pixel, row-major, read-only to
    /// the consumer.
    pub fn get_gpu_data(&self) -> (r: &[u8])
        ensures
            r@ == self@.gpu.framebuffer,
    {
        self.cpu.gpu.framebuffer.as_slice()
    }

    /// Switches sound output on or off.
    pub fn enable_audio(&mut self, is_on: bool)
        requires
            old(self).wf(),
        ensures
            final(self)@ == (CpuModel {
                sound: (Sound { on: is_on, ..old(self)@.sound }),
                ..old(self)@
            }),
            final(self).wf(),
    {
        self.cpu.sound.on = is_on;
        proof {
            assert(self@ =~= (CpuModel {
                sound: (Sound { on: is_on, ..old(self)@.sound }),
                ..old(self)@
            }));
        }
    }

    /// Drains the sound peripheral's accumulated cycle budget, as the host
    /// does when it consumes the pending samples.
    pub fn sync_audio(&mut self)
        requires
            old(self).wf(),
        ensures
            final(self)@ == (CpuModel {
                sound: (Sound { cycle_accum: 0, ..old(self)@.sound }),
                ..old(self)@
            }),
            final(self).wf(),
    {
        self.cpu.sound.sync();
        proof {
            assert(self@ =~= (CpuModel {
                sound: (Sound { cycle_accum: 0, ..old(self)@.sound }),
                ..old(self)@
            }));
        }
    }

    /// Records a key release in the joypad register.
    pub fn keyup(&mut self, key: KeypadKey)
        requires
            old(self).wf(),
        ensures
            final(self).wf(),
            is_button(key) ==> final(self)@ == (CpuModel {
                mem: (MemModel {
                    keypad: (Keypad {
                        buttons: old(self)@.mem.keypad.buttons & !key_bit(key),
                        ..old(self)@.mem.keypad
                    }),
                    ..old(self)@.mem
                }),
                ..old(self)@
            }),
            !is_button(key) ==> final(self)@ == (CpuModel {
                mem: (MemModel {
                    keypad: (Keypad {
                        directions: old(self)@.mem.keypad.directions & !key_bit(key),
                        ..old(self)@.mem.keypad
                    }),
                    ..old(self)@.mem
                }),
                ..old(self)@
            }),
    {
        self.cpu.memory.keypad.keyup(key);
        proof {
            if is_button(key) {
                assert(self@ =~= (CpuModel {
                    mem: (MemModel {
                        keypad: (Keypad {
                            buttons: old(self)@.mem.keypad.buttons & !key_bit(key),
                            ..old(self)@.mem.keypad
                        }),
                        ..old(self)@.mem
                    }),
                    ..old(self)@
                }));
            } else {
                assert(self@ =~= (CpuModel {
                    mem: (MemModel {
                        keypad: (Keypad {
                            directions: old(self)@.mem.keypad.directions & !key_bit(key),
                            ..old(self)@.mem.keypad
                        }),
                        ..old(self)@.mem
                    }),
                    ..old(self)@
                }));
            }
        }
    }

    /// Records a key press in the joypad register and raises the joypad
    /// interrupt request.
    pub fn keydown(&mut self, key: KeypadKey)
        requires
            old(self).wf(),
        ensures
            final(self).wf(),
            is_button(key) ==> final(self)@ == (CpuModel {
                mem: (MemModel {
                    keypad: (Keypad {
                        buttons: old(self)@.mem.keypad.buttons | key_bit(key),
                        interrupt: 0x10,
                        ..old(self)@.mem.keypad
                    }),
                    ..old(self)@.mem
                }),
                ..old(self)@
            }),
            !is_button(key) ==> final(self)@ == (CpuModel {
                mem: (MemModel {
                    keypad: (Keypad {
                        directions: old(self)@.mem.keypad.directions | key_bit(key),
                        interrupt: 0x10,
                        ..old(self)@.mem.keypad
                    }),
                    ..old(self)@.mem
                }),
                ..old(self)@
            }),
    {
        self.cpu.memory.keypad.keydown(key);
        proof {
            if is_button(key) {
                assert(self@ =~= (CpuModel {
                    mem: (MemModel {
                        keypad: (Keypad {
                            buttons: old(self)@.mem.keypad.buttons | key_bit(key),
                            interrupt: 0x10,
                            ..old(self)@.mem.keypad
                        }),
                        ..old(self)@.mem
                    }),
                    ..old(self)@
                }));
            } else {
                assert(self@ =~= (CpuModel {
                    mem: (MemModel {
                        keypad: (Keypad {
                            directions: old(self)@.mem.keypad.directions | key_bit(key),
                            interrupt: 0x10,
                            ..old(self)@.mem.keypad
                        }),
                        ..old(self)@.mem
                    }),
                    ..old(self)@
                }));
            }
        }
    }

    /// The title recorded in the cartridge header, cut at the first zero
    /// byte.
    pub fn romname(&self) -> (r: String)
        requires
            self.wf(),
        ensures
            r@ == spec_title_upto(self@.mem.rom, 16),
    {
        let mut name = String::new();
        let mut i: usize = 0;
        let mut stopped = false;
        while i < 16
            invariant
                i <= 16,
                self.wf(),
                stopped ==> name@.len() < i,
                !stopped ==> name@.len() == i,
                name@ == spec_title_upto(self@.mem.rom, i as int),
            decreases 16 - i,
        {
            let b = self.cpu.memory.rom[0x134 + i];
            if !stopped && b != 0 {
                string_push(&mut name, b as char);
            } else {
                stopped = true;
            }
            i = i + 1;
        }
        name
    }

    /// Replaces the external-RAM contents from a dump; rejected — with the
    /// device untouched — exactly when the dump's length does not match.
    pub fn loadram(&mut self, ramdata: &[u8]) -> (r: Result<(), CoreError>)
        requires
            old(self).wf(),
        ensures
            final(self).wf(),
            match r {
                Ok(()) => ramdata@.len() == RAM_BANKS * RAM_BANK_SIZE && final(self)@ == (CpuModel {
                    mem: (MemModel { external_ram: ramdata@, ..old(self)@.mem }),
                    ..old(self)@
                }),
                Err(e) => ramdata@.len() != RAM_BANKS * RAM_BANK_SIZE && e
                    == CoreError::CorruptState && final(self)@ == old(self)@,
            },
    {
        if ramdata.len() != RAM_BANKS * RAM_BANK_SIZE {
            return Err(CoreError::CorruptState);
        }
        let mut fresh: Vec<u8> = Vec::new();
        let mut i: usize = 0;
        while i < RAM_BANKS * RAM_BANK_SIZE
            invariant
                i <= RAM_BANKS * RAM_BANK_SIZE,
                ramdata@.len() == RAM_BANKS * RAM_BANK_SIZE,
                fresh@ == ramdata@.take(i as int),
            decreases RAM_BANKS * RAM_BANK_SIZE - i,
        {
            fresh.push(ramdata[i]);
            i = i + 1;
        }
        self.cpu.memory.external_ram = fresh;
        proof {
            assert(ramdata@.take(RAM_BANKS * RAM_BANK_SIZE as int) =~= ramdata@);
            assert(self@ =~= (CpuModel {
                mem: (MemModel { external_ram: ramdata@, ..old(self)@.mem }),
                ..old(self)@
            }));
        }
        Ok(())
    }

    /// A copy of the external-RAM contents.
    pub fn dumpram(&self) -> (r: Vec<u8>)
        requires
            self.wf(),
        ensures
            r@ == self@.mem.external_ram,
    {
        let mut out: Vec<u8> = Vec::new();
        let mut i: usize = 0;
        let n = self.cpu.memory.external_ram.len();
        while i < n
            invariant
                i <= n,
                self.wf(),
                n == self@.mem.external_ram.len(),
                out@ == self@.mem.external_ram.take(i as int),
            decreases n - i,
        {
            out.push(self.cpu.memory.external_ram[i]);
            i = i + 1;
        }
        proof {
            assert(self@.mem.external_ram.take(n as int) =~= self@.mem.external_ram);
        }
        out
    }

    /// Whether the loaded cartridge declares battery-backed RAM.
    pub fn ram_is_battery_backed(&self) -> (r: bool)
        ensures
            r == self@.mem.battery_backed,
    {
        self.cpu.memory.battery_backed
    }

    /// Whether external RAM was written since last checked; the flag clears
    /// once read.
    pub fn check_and_reset_ram_updated(&mut self) -> (r: bool)
        requires
            old(self).wf(),
        ensures
            r == old(self)@.mem.ram_updated,
            final(self)@ == (CpuModel {
                mem: (MemModel { ram_updated: false, ..old(self)@.mem }),
                ..old(self)@
            }),
            final(self).wf(),
    {
        let result = self.cpu.memory.ram_updated;
        self.cpu.memory.ram_updated = false;
        proof {
            assert(self@ =~= (CpuModel {
                mem: (MemModel { ram_updated: false, ..old(self)@.mem }),
                ..old(self)@
            }));
        }
        result
    }

    /// Whether external RAM was written since last checked, without clearing
    /// the flag.
    pub fn check_ram_updated_status(&self) -> (r: bool)
        ensures
            r == self@.mem.ram_updated,
    {
        self.cpu.memory.ram_updated
    }

    /// Reads one byte through the address space.
    pub fn read_byte(&mut self, address: u16) -> (r: u8)
        requires
            old(self).wf(),
        ensures
            final(self)@ == old(self)@,
            final(self).wf(),
            r == cpu_rb(old(self)@, address),
    {
        self.cpu.read_byte(address)
    }

    /// Writes one byte through the address space.
    pub fn write_byte(&mut self, address: u16, byte: u8)
        requires
            old(self).wf(),
        ensures
            final(self)@ == cpu_wb(old(self)@, address, byte),
            final(self).wf(),
    {
        self.cpu.write_byte(address, byte)
    }

    /// Reads one little-endian 16-bit value through the address space.
    pub fn read_wide(&mut self, address: u16) -> (r: u16)
        requires
            old(self).wf(),
        ensures
            final(self)@ == old(self)@,
            final(self).wf(),
            r == cpu_rw(old(self)@, address),
    {
        self.cpu.read_wide(address)
    }

    /// Writes one little-endian 16-bit value through the address space.
    pub fn write_wide(&mut self, address: u16, wide: u16)
        requires
            old(self).wf(),
        ensures
            final(self)@ == cpu_ww(old(self)@, address, wide),
            final(self).wf(),
    {
        self.cpu.write_wide(address, wide)
    }
}

} // verus!
