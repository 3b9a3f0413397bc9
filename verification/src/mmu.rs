//! The memory-mapped address space: every physical storage region of the
//! 16-bit address space, the cartridge bank-controller state, and the
//! address-decoded dispatch of reads and writes, including the DMA trigger.

use vstd::prelude::*;
use crate::keypad::{Keypad, joypad_value};
use crate::serial::Serial;

verus! {

/// The cartridge bank-controller family, inferred from the cartridge
/// header's controller-type byte.
#[derive(Clone, Copy, Debug, PartialEq, Eq, Structural)]
pub enum MBCType {
    NoController,
    MBC1,
    MBC2,
    MBC3,
    MBC5,
}

/// Size of one switchable ROM bank.
pub const ROM_BANK_SIZE: usize = 0x4000;

/// Size of one external-RAM bank.
pub const RAM_BANK_SIZE: usize = 0x2000;

/// Number of external-RAM banks held.
pub const RAM_BANKS: usize = 4;

/// The mathematical model of the address space: each region as a byte
/// sequence plus the bank-controller and peripheral state.
#[verifier::ext_equal]
pub ghost struct MemModel {
    /// The whole cartridge image, padded to whole banks, at least two banks.
    pub rom: Seq<u8>,
    pub vram: Seq<u8>,
    pub external_ram: Seq<u8>,
    pub wram: Seq<u8>,
    pub oam: Seq<u8>,
    pub io: Seq<u8>,
    pub hram: Seq<u8>,
    pub interrupt_enable: u8,
    pub serial: Serial,
    pub keypad: Keypad,
    pub mbc_type: MBCType,
    pub rom_bank: usize,
    pub ram_bank: usize,
    pub ram_enabled: bool,
    pub banking_mode: u8,
    pub ram_updated: bool,
    pub battery_backed: bool,
    pub cgb_mode: bool,
    pub speed: u8,
}

impl MemModel {
    /// Number of physical ROM banks in the loaded image.
    pub open spec fn rom_banks(self) -> int {
        self.rom.len() as int / ROM_BANK_SIZE as int
    }

    /// Well-formedness: region lengths are fixed, the ROM image covers whole
    /// banks and at least two of them, and every bank index stays inside the
    /// loaded image.
    pub open spec fn wf(self) -> bool {
        &&& self.rom.len() % ROM_BANK_SIZE as nat == 0
        &&& self.rom.len() >= 2 * ROM_BANK_SIZE
        &&& self.rom.len() <= 0x4000_0000
        &&& 1 <= self.rom_bank
        &&& (self.rom_bank + 1) * ROM_BANK_SIZE as int <= self.rom.len()
        &&& self.vram.len() == 0x2000
        &&& self.external_ram.len() == RAM_BANKS * RAM_BANK_SIZE
        &&& self.wram.len() == 0x2000
        &&& self.oam.len() == 0xA0
        &&& self.io.len() == 0x80
        &&& self.hram.len() == 0x7F
        &&& self.ram_bank < RAM_BANKS
        &&& self.banking_mode <= 1
        &&& (self.speed == 1 || self.speed == 2)
    }
}

/// The address space with every region it owns.
pub struct Memory {
    /// The whole cartridge image; the fixed window `0x0000-0x3FFF` reads bank
    /// 0 and the switchable window `0x4000-0x7FFF` reads bank `rom_bank`.
    pub rom: Vec<u8>,
    /// Video RAM, `0x8000-0x9FFF`.
    pub vram: Vec<u8>,
    /// External (cartridge) RAM, `0xA000-0xBFFF`, banked by `ram_bank`.
    pub external_ram: Vec<u8>,
    /// Work RAM, `0xC000-0xDFFF`, echoed at `0xE000-0xFDFF`.
    pub wram: Vec<u8>,
    /// Object attribute memory, `0xFE00-0xFE9F`.
    pub oam: Vec<u8>,
    /// I/O register block, `0xFF00-0xFF7F`.
    pub io_registers: Vec<u8>,
    /// High RAM, `0xFF80-0xFFFE`.
    pub hram: Vec<u8>,
    /// Interrupt-enable byte, `0xFFFF`.
    pub interrupt_enable: u8,
    /// Serial transfer peripheral, mapped at `0xFF01-0xFF02`.
    pub serial: Serial,
    /// Joypad peripheral, mapped at `0xFF00`.
    pub keypad: Keypad,
    /// Bank-controller family of the loaded cartridge.
    pub mbc_type: MBCType,
    /// Active switchable ROM bank index.
    pub rom_bank: usize,
    /// Active external-RAM bank index.
    pub ram_bank: usize,
    /// Whether external RAM is enabled.
    pub ram_enabled: bool,
    /// Bank-controller banking-mode flag (0 or 1).
    pub banking_mode: u8,
    /// Whether external RAM was written since last checked.
    pub ram_updated: bool,
    /// Whether the cartridge declares battery-backed RAM.
    pub battery_backed: bool,
    /// Whether the core runs in color mode.
    pub cgb_mode: bool,
    /// Clock divider of the double-speed toggle: 1 or 2.
    pub speed: u8,
}

impl View for Memory {
    type V = MemModel;

    open spec fn view(&self) -> MemModel {
        MemModel {
            rom: self.rom@,
            vram: self.vram@,
            external_ram: self.external_ram@,
            wram: self.wram@,
            oam: self.oam@,
            io: self.io_registers@,
            hram: self.hram@,
            interrupt_enable: self.interrupt_enable,
            serial: self.serial,
            keypad: self.keypad,
            mbc_type: self.mbc_type,
            rom_bank: self.rom_bank,
            ram_bank: self.ram_bank,
            ram_enabled: self.ram_enabled,
            banking_mode: self.banking_mode,
            ram_updated: self.ram_updated,
            battery_backed: self.battery_backed,
            cgb_mode: self.cgb_mode,
            speed: self.speed,
        }
    }
}

/// The address space right after power-on, before a cartridge is loaded: two
/// zeroed ROM banks, zeroed RAM regions, cleared peripherals.
pub open spec fn mem_init() -> MemModel {
    MemModel {
        rom: Seq::new((2 * ROM_BANK_SIZE) as nat, |i: int| 0u8),
        vram: Seq::new(0x2000, |i: int| 0u8),
        external_ram: Seq::new((RAM_BANKS * RAM_BANK_SIZE) as nat, |i: int| 0u8),
        wram: Seq::new(0x2000, |i: int| 0u8),
        oam: Seq::new(0xA0, |i: int| 0u8),
        io: Seq::new(0x80, |i: int| 0u8),
        hram: Seq::new(0x7F, |i: int| 0u8),
        interrupt_enable: 0,
        serial: Serial { data: 0, control: 0, interrupt: 0 },
        keypad: Keypad { directions: 0, buttons: 0, select: 0x30, interrupt: 0 },
        mbc_type: MBCType::NoController,
        rom_bank: 1,
        ram_bank: 0,
        ram_enabled: false,
        banking_mode: 0,
        ram_updated: false,
        battery_backed: false,
        cgb_mode: false,
        speed: 1,
    }
}

/// The byte an I/O-block read returns: the joypad and serial registers come
/// from their peripherals, every other slot from the register array.
pub open spec fn spec_read_io(m: MemModel, addr: u16) -> u8
    recommends
        0xFF00 <= addr < 0xFF80,
{
    if addr == 0xFF00 {
        joypad_value(m.keypad)
    } else if addr == 0xFF01 {
        m.serial.data
    } else if addr == 0xFF02 {
        m.serial.control | 0x7E
    } else {
        m.io[addr - 0xFF00]
    }
}

/// The byte a read returns at an address, by the fixed region partition.
/// External RAM reads while RAM is disabled, and reads of the unusable range,
/// return `0xFF`. Echo-RAM reads alias work RAM.
pub open spec fn spec_rb(m: MemModel, addr: u16) -> u8 {
    if addr < 0x4000 {
        m.rom[addr as int]
    } else if addr < 0x8000 {
        m.rom[m.rom_bank * ROM_BANK_SIZE + (addr - 0x4000)]
    } else if addr < 0xA000 {
        m.vram[addr - 0x8000]
    } else if addr < 0xC000 {
        if m.ram_enabled {
            m.external_ram[m.ram_bank * RAM_BANK_SIZE + (addr - 0xA000)]
        } else {
            0xFF
        }
    } else if addr < 0xE000 {
        m.wram[addr - 0xC000]
    } else if addr < 0xFE00 {
        m.wram[addr - 0xE000]
    } else if addr < 0xFEA0 {
        m.oam[addr - 0xFE00]
    } else if addr < 0xFF00 {
        0xFF
    } else if addr < 0xFF80 {
        spec_read_io(m, addr)
    } else if addr < 0xFFFF {
        m.hram[addr - 0xFF80]
    } else {
        m.interrupt_enable
    }
}

/// A bank index reduced modulo the number of physical banks, with index 0
/// coerced to 1: bank 0 is always visible in the fixed window, so the
/// switchable window never selects it.
pub open spec fn spec_select_rom_bank(m: MemModel, bank: usize) -> MemModel {
    let reduced = (bank as int % m.rom_banks()) as usize;
    MemModel { rom_bank: if reduced == 0 { 1usize } else { reduced }, ..m }
}

/// The bank-controller register decode of a write in the ROM range.
///
/// With no controller the write lands in the ROM buffer itself (legacy
/// passthrough). The banked family decodes by address range: RAM enable,
/// low ROM-bank bits (0 coerced to 1), high ROM-bank bits or RAM bank by
/// mode, and the mode flag. The remaining recognized families are a no-op
/// pending a decision on whether to decode or reject them.
pub open spec fn spec_write_mbc(m: MemModel, addr: u16, v: u8) -> MemModel
    recommends
        addr < 0x8000,
{
    match m.mbc_type {
        MBCType::NoController => MemModel { rom: m.rom.update(addr as int, v), ..m },
        MBCType::MBC1 => {
            if addr < 0x2000 {
                MemModel { ram_enabled: (v & 0x0F) == 0x0A, ..m }
            } else if addr < 0x4000 {
                let low: usize = if v & 0x1F == 0 { 1usize } else { (v & 0x1F) as usize };
                spec_select_rom_bank(m, (m.rom_bank & 0x60) | low)
            } else if addr < 0x6000 {
                if m.banking_mode == 0 {
                    spec_select_rom_bank(m, (m.rom_bank & 0x1F) | (((v & 0x03) as usize) << 5))
                } else {
                    MemModel { ram_bank: ((v & 0x03) as usize) % RAM_BANKS, ..m }
                }
            } else {
                MemModel { banking_mode: v & 0x01, ..m }
            }
        },
        _ => m,
    }
}

/// Object attribute memory after the DMA trigger: a synchronous copy of 160
/// bytes starting at `value << 8`.
pub open spec fn spec_dma_oam(m: MemModel, v: u8) -> Seq<u8> {
    Seq::new(0xA0, |i: int| spec_rb(m, (((v as u16) << 8) + i) as u16))
}

/// The address space after an I/O-block write: the joypad and serial
/// registers go to their peripherals; the DMA trigger stores the value and
/// performs the copy as part of the same write; every other slot stores
/// plainly.
pub open spec fn spec_write_io(m: MemModel, addr: u16, v: u8) -> MemModel
    recommends
        0xFF00 <= addr < 0xFF80,
{
    if addr == 0xFF00 {
        MemModel { keypad: (Keypad { select: v & 0x30, ..m.keypad }), ..m }
    } else if addr == 0xFF01 {
        MemModel { serial: (Serial { data: v, ..m.serial }), ..m }
    } else if addr == 0xFF02 {
        if v & 0x81 == 0x81 {
            MemModel { serial: (Serial { control: v, interrupt: 0x8, ..m.serial }), ..m }
        } else {
            MemModel { serial: (Serial { control: v, ..m.serial }), ..m }
        }
    } else if addr == 0xFF46 {
        let m1 = MemModel { io: m.io.update(0x46, v), ..m };
        MemModel { oam: spec_dma_oam(m1, v), ..m1 }
    } else {
        MemModel { io: m.io.update(addr - 0xFF00, v), ..m }
    }
}

/// The address space after a write at an address, by the fixed region
/// partition. ROM-range writes go to the bank-controller decoder, external
/// RAM writes are dropped while RAM is disabled, echo-RAM writes alias work
/// RAM, and writes to the unusable range are ignored.
pub open spec fn spec_wb(m: MemModel, addr: u16, v: u8) -> MemModel {
    if addr < 0x8000 {
        spec_write_mbc(m, addr, v)
    } else if addr < 0xA000 {
        MemModel { vram: m.vram.update(addr - 0x8000, v), ..m }
    } else if addr < 0xC000 {
        if m.ram_enabled {
            MemModel {
                external_ram: m.external_ram.update(
                    m.ram_bank * RAM_BANK_SIZE + (addr - 0xA000),
                    v,
                ),
                ram_updated: true,
                ..m
            }
        } else {
            m
        }
    } else if addr < 0xE000 {
        MemModel { wram: m.wram.update(addr - 0xC000, v), ..m }
    } else if addr < 0xFE00 {
        MemModel { wram: m.wram.update(addr - 0xE000, v), ..m }
    } else if addr < 0xFEA0 {
        MemModel { oam: m.oam.update(addr - 0xFE00, v), ..m }
    } else if addr < 0xFF00 {
        m
    } else if addr < 0xFF80 {
        spec_write_io(m, addr, v)
    } else if addr < 0xFFFF {
        MemModel { hram: m.hram.update(addr - 0xFF80, v), ..m }
    } else {
        MemModel { interrupt_enable: v, ..m }
    }
}

/// Reducing a bank index modulo the bank count, then coercing 0 to 1, lands
/// inside the loaded image.
pub proof fn lemma_select_rom_bank_wf(m: MemModel, bank: usize)
    requires
        m.wf(),
    ensures
        spec_select_rom_bank(m, bank).wf(),
{
    let n = m.rom_banks();
    assert(n >= 2) by {
        vstd::arithmetic::div_mod::lemma_div_is_ordered(2 * ROM_BANK_SIZE as int,
            m.rom.len() as int, ROM_BANK_SIZE as int);
        assert(2 * ROM_BANK_SIZE as int / ROM_BANK_SIZE as int == 2);
    }
    let reduced = bank as int % n;
    assert(0 <= reduced < n) by {
        vstd::arithmetic::div_mod::lemma_mod_bound(bank as int, n);
    }
    let picked: int = if reduced == 0 { 1int } else { reduced };
    assert(1 <= picked < n);
    assert((picked + 1) * ROM_BANK_SIZE as int <= n * ROM_BANK_SIZE as int) by {
        vstd::arithmetic::mul::lemma_mul_inequality(picked + 1, n, ROM_BANK_SIZE as int);
    }
    assert(n * ROM_BANK_SIZE as int <= m.rom.len()) by {
        vstd::arithmetic::div_mod::lemma_fundamental_div_mod(m.rom.len() as int,
            ROM_BANK_SIZE as int);
        vstd::arithmetic::mul::lemma_mul_is_commutative(n, ROM_BANK_SIZE as int);
    }
}

/// A write never changes the shape of the address space: region lengths and
/// bank bounds survive every write.
pub proof fn lemma_wb_wf(m: MemModel, addr: u16, v: u8)
    requires
        m.wf(),
    ensures
        spec_wb(m, addr, v).wf(),
{
    if addr < 0x8000 {
        match m.mbc_type {
            MBCType::MBC1 => {
                if 0x2000 <= addr < 0x4000 {
                    let low: usize = if v & 0x1F == 0 { 1usize } else { (v & 0x1F) as usize };
                    lemma_select_rom_bank_wf(m, (m.rom_bank & 0x60) | low);
                } else if 0x4000 <= addr < 0x6000 {
                    if m.banking_mode == 0 {
                        lemma_select_rom_bank_wf(m, (m.rom_bank & 0x1F) | (((v & 0x03) as usize)
                            << 5));
                    } else {
                        assert(((v & 0x03) as usize) % RAM_BANKS < RAM_BANKS) by {
                            vstd::arithmetic::div_mod::lemma_mod_bound(((v & 0x03) as usize) as int,
                                RAM_BANKS as int);
                        }
                    }
                } else if 0x6000 <= addr {
                    assert(v & 0x01 <= 1) by (bit_vector);
                }
            },
            _ => {},
        }
    }
}

impl Memory {
    /// Well-formedness of the address space; see `MemModel::wf`.
    pub open spec fn wf(&self) -> bool {
        self@.wf()
    }

    /// A power-on address space with no cartridge loaded: all regions zeroed,
    /// no bank controller, bank 1 in the switchable window.
    pub fn new() -> (r: Memory)
        ensures
            r@ == mem_init(),
            r.wf(),
    {
        let r = Memory {
            rom: vec![0u8; 2 * ROM_BANK_SIZE],
            vram: vec![0u8; 0x2000],
            external_ram: vec![0u8; RAM_BANKS * RAM_BANK_SIZE],
            wram: vec![0u8; 0x2000],
            oam: vec![0u8; 0xA0],
            io_registers: vec![0u8; 0x80],
            hram: vec![0u8; 0x7F],
            interrupt_enable: 0,
            serial: Serial::new(),
            keypad: Keypad::new(),
            mbc_type: MBCType::NoController,
            rom_bank: 1,
            ram_bank: 0,
            ram_enabled: false,
            banking_mode: 0,
            ram_updated: false,
            battery_backed: false,
            cgb_mode: false,
            speed: 1,
        };
        proof {
            assert(r@ =~= mem_init());
        }
        r
    }

    /// Reads one byte, dispatched by address range per the fixed partition.
    pub fn read_byte(&self, addr: u16) -> (r: u8)
        requires
            self.wf(),
        ensures
            r == spec_rb(self@, addr),
    {
        if addr < 0x4000 {
            self.rom[addr as usize]
        } else if addr < 0x8000 {
            self.rom[self.rom_bank * ROM_BANK_SIZE + (addr as usize - 0x4000)]
        } else if addr < 0xA000 {
            self.vram[addr as usize - 0x8000]
        } else if addr < 0xC000 {
            if self.ram_enabled {
                self.external_ram[self.ram_bank * RAM_BANK_SIZE + (addr as usize - 0xA000)]
            } else {
                0xFF
            }
        } else if addr < 0xE000 {
            self.wram[addr as usize - 0xC000]
        } else if addr < 0xFE00 {
            self.wram[addr as usize - 0xE000]
        } else if addr < 0xFEA0 {
            self.oam[addr as usize - 0xFE00]
        } else if addr < 0xFF00 {
            0xFF
        } else if addr < 0xFF80 {
            self.read_io_register(addr)
        } else if addr < 0xFFFF {
            self.hram[addr as usize - 0xFF80]
        } else {
            self.interrupt_enable
        }
    }

    /// Reads one I/O register, dispatching the joypad and serial slots to
    /// their peripherals.
    fn read_io_register(&self, addr: u16) -> (r: u8)
        requires
            self.wf(),
            0xFF00 <= addr < 0xFF80,
        ensures
            r == spec_read_io(self@, addr),
    {
        if addr == 0xFF00 {
            self.keypad.rb()
        } else if addr == 0xFF01 || addr == 0xFF02 {
            self.serial.rb(addr)
        } else {
            self.io_registers[addr as usize - 0xFF00]
        }
    }

    /// Writes one byte, dispatched by address range per the fixed partition.
    /// ROM-range writes are never stored as plain data outside the
    /// no-controller mode: they go to the bank-controller register decoder.
    pub fn write_byte(&mut self, addr: u16, value: u8)
        requires
            old(self).wf(),
        ensures
            final(self)@ == spec_wb(old(self)@, addr, value),
            final(self).wf(),
    {
        proof {
            lemma_wb_wf(self@, addr, value);
        }
        if addr < 0x8000 {
            self.write_mbc_register(addr, value);
        } else if addr < 0xA000 {
            self.vram[addr as usize - 0x8000] = value;
            proof {
                assert(self@ =~= spec_wb(old(self)@, addr, value));
            }
        } else if addr < 0xC000 {
            if self.ram_enabled {
                self.external_ram[self.ram_bank * RAM_BANK_SIZE + (addr as usize - 0xA000)] =
                    value;
                self.ram_updated = true;
                proof {
                    assert(self@ =~= spec_wb(old(self)@, addr, value));
                }
            }
        } else if addr < 0xE000 {
            self.wram[addr as usize - 0xC000] = value;
            proof {
                assert(self@ =~= spec_wb(old(self)@, addr, value));
            }
        } else if addr < 0xFE00 {
            self.wram[addr as usize - 0xE000] = value;
            proof {
                assert(self@ =~= spec_wb(old(self)@, addr, value));
            }
        } else if addr < 0xFEA0 {
            self.oam[addr as usize - 0xFE00] = value;
            proof {
                assert(self@ =~= spec_wb(old(self)@, addr, value));
            }
        } else if addr < 0xFF00 {
            // Unusable range: writes are ignored.
        } else if addr < 0xFF80 {
            self.write_io_register(addr, value);
        } else if addr < 0xFFFF {
            self.hram[addr as usize - 0xFF80] = value;
            proof {
                assert(self@ =~= spec_wb(old(self)@, addr, value));
            }
        } else {
            self.interrupt_enable = value;
            proof {
                assert(self@ =~= spec_wb(old(self)@, addr, value));
            }
        }
    }

    /// Writes one I/O register. Writing the DMA trigger performs the
    /// synchronous 160-byte copy into object attribute memory as part of
    /// this single write.
    fn write_io_register(&mut self, addr: u16, value: u8)
        requires
            old(self).wf(),
            0xFF00 <= addr < 0xFF80,
        ensures
            final(self)@ == spec_write_io(old(self)@, addr, value),
            final(self).wf(),
    {
        if addr == 0xFF00 {
            self.keypad.wb(value);
            proof {
                assert(self@ =~= spec_write_io(old(self)@, addr, value));
            }
        } else if addr == 0xFF01 || addr == 0xFF02 {
            self.serial.wb(addr, value);
            proof {
                assert(self@ =~= spec_write_io(old(self)@, addr, value));
            }
        } else if addr == 0xFF46 {
            self.io_registers[0x46] = value;
            self.dma_transfer(value);
            proof {
                assert(self@ =~= spec_write_io(old(self)@, addr, value));
            }
        } else {
            self.io_registers[addr as usize - 0xFF00] = value;
            proof {
                assert(self@ =~= spec_write_io(old(self)@, addr, value));
            }
        }
    }

    /// The synchronous DMA copy: 160 bytes from `value << 8` into object
    /// attribute memory, read through the normal address decode.
    fn dma_transfer(&mut self, value: u8)
        requires
            old(self).wf(),
        ensures
            final(self)@ == (MemModel { oam: spec_dma_oam(old(self)@, value), ..old(self)@ }),
            final(self).wf(),
    {
        let source: u16 = (value as u16) << 8;
        assert((value as u16) << 8 <= 0xFF00) by (bit_vector);
        let mut copied: Vec<u8> = Vec::new();
        let mut i: usize = 0;
        while i < 0xA0
            invariant
                self@ == old(self)@,
                self.wf(),
                i <= 0xA0,
                source <= 0xFF00,
                copied@ =~= Seq::new(i as nat, |j: int| spec_rb(self@, (source + j) as u16)),
            decreases 0xA0 - i,
        {
            let b = self.read_byte(source + i as u16);
            copied.push(b);
            i = i + 1;
        }
        let ghost target = spec_dma_oam(old(self)@, value);
        assert(copied@ =~= target);
        let mut k: usize = 0;
        while k < 0xA0
            invariant
                k <= 0xA0,
                copied@ == target,
                copied@.len() == 0xA0,
                self@ == (MemModel { oam: self@.oam, ..old(self)@ }),
                self@.oam.len() == 0xA0,
                forall|j: int| 0 <= j < k ==> self@.oam[j] == copied@[j],
                forall|j: int| k <= j < 0xA0 ==> self@.oam[j] == old(self)@.oam[j],
            decreases 0xA0 - k,
        {
            let b = copied[k];
            self.oam[k] = b;
            k = k + 1;
        }
        proof {
            assert(self@.oam =~= target);
            assert(self@ =~= (MemModel { oam: target, ..old(self)@ }));
        }
    }

    /// Decodes a write in the ROM range as a bank-controller register write;
    /// see `spec_write_mbc`.
    fn write_mbc_register(&mut self, addr: u16, value: u8)
        requires
            old(self).wf(),
            addr < 0x8000,
        ensures
            final(self)@ == spec_write_mbc(old(self)@, addr, value),
            final(self).wf(),
    {
        proof {
            lemma_wb_wf(self@, addr, value);
        }
        match self.mbc_type {
            MBCType::NoController => {
                // No controller: tolerate the write as a raw buffer write
                // (legacy passthrough); bank selection is untouched.
                self.rom[addr as usize] = value;
                proof {
                    assert(self@ =~= spec_write_mbc(old(self)@, addr, value));
                }
            },
            MBCType::MBC1 => {
                if addr < 0x2000 {
                    self.set_ram_enabled((value & 0x0F) == 0x0A);
                    proof {
                        assert(self@ =~= spec_write_mbc(old(self)@, addr, value));
                    }
                } else if addr < 0x4000 {
                    let low: usize = if value & 0x1F == 0 {
                        1
                    } else {
                        (value & 0x1F) as usize
                    };
                    self.select_rom_bank((self.rom_bank & 0x60) | low);
                    proof {
                        assert(self@ =~= spec_write_mbc(old(self)@, addr, value));
                    }
                } else if addr < 0x6000 {
                    if self.banking_mode == 0 {
                        self.select_rom_bank((self.rom_bank & 0x1F) | (((value & 0x03) as usize)
                            << 5));
                        proof {
                            assert(self@ =~= spec_write_mbc(old(self)@, addr, value));
                        }
                    } else {
                        self.select_ram_bank((value & 0x03) as usize);
                        proof {
                            assert(self@ =~= spec_write_mbc(old(self)@, addr, value));
                        }
                    }
                } else {
                    self.set_banking_mode(value);
                    proof {
                        assert(self@ =~= spec_write_mbc(old(self)@, addr, value));
                    }
                }
            },
            _ => {
                // Recognized but undecoded controller families stay a no-op
                // pending a decision on decoding or rejecting them.
            },
        }
    }

    /// Selects the switchable ROM bank. The index is reduced modulo the
    /// number of physical banks and index 0 is coerced to 1.
    pub fn select_rom_bank(&mut self, bank: usize)
        requires
            old(self).wf(),
        ensures
            final(self)@ == spec_select_rom_bank(old(self)@, bank),
            final(self).wf(),
    {
        proof {
            lemma_select_rom_bank_wf(self@, bank);
        }
        let banks = self.rom.len() / ROM_BANK_SIZE;
        let reduced = bank % banks;
        self.rom_bank = if reduced == 0 {
            1
        } else {
            reduced
        };
        proof {
            assert(self@ =~= spec_select_rom_bank(old(self)@, bank));
        }
    }

    /// Selects the external-RAM bank, reduced modulo the bank count.
    pub fn select_ram_bank(&mut self, bank: usize)
        requires
            old(self).wf(),
        ensures
            final(self)@ == (MemModel { ram_bank: (bank % RAM_BANKS) as usize, ..old(self)@ }),
            final(self).wf(),
    {
        self.ram_bank = bank % RAM_BANKS;
        proof {
            assert(self@ =~= (MemModel { ram_bank: (bank % RAM_BANKS) as usize, ..old(self)@ }));
        }
    }

    /// Enables or disables external RAM.
    pub fn set_ram_enabled(&mut self, enabled: bool)
        requires
            old(self).wf(),
        ensures
            final(self)@ == (MemModel { ram_enabled: enabled, ..old(self)@ }),
            final(self).wf(),
    {
        self.ram_enabled = enabled;
        proof {
            assert(self@ =~= (MemModel { ram_enabled: enabled, ..old(self)@ }));
        }
    }

    /// Sets the banking-mode flag from bit 0 of the written value.
    pub fn set_banking_mode(&mut self, mode: u8)
        requires
            old(self).wf(),
        ensures
            final(self)@ == (MemModel { banking_mode: mode & 0x01, ..old(self)@ }),
            final(self).wf(),
    {
        self.banking_mode = mode & 0x01;
        proof {
            assert(mode & 0x01 <= 1) by (bit_vector);
            assert(self@ =~= (MemModel { banking_mode: mode & 0x01, ..old(self)@ }));
        }
    }

    /// Toggles the double-speed clock divider in color mode; a no-op in
    /// classic mode.
    pub fn switch_speed(&mut self)
        requires
            old(self).wf(),
        ensures
            old(self).cgb_mode ==> final(self)@ == (MemModel {
                speed: if old(self).speed == 1 { 2u8 } else { 1u8 },
                ..old(self)@
            }),
            !old(self).cgb_mode ==> final(self)@ == old(self)@,
            final(self).wf(),
    {
        if self.cgb_mode {
            self.speed = if self.speed == 1 {
                2
            } else {
                1
            };
            proof {
                assert(self@ =~= (MemModel {
                    speed: if old(self).speed == 1 { 2u8 } else { 1u8 },
                    ..old(self)@
                }));
            }
        }
    }
}

/// The padded image length a loaded ROM occupies: whole banks, at least two.
pub open spec fn spec_padded_len(n: nat) -> nat {
    if n <= 2 * ROM_BANK_SIZE {
        (2 * ROM_BANK_SIZE) as nat
    } else {
        ((((n + ROM_BANK_SIZE - 1) as int / ROM_BANK_SIZE as int) * ROM_BANK_SIZE as int)) as nat
    }
}

/// The bank-controller family named by the cartridge header's
/// controller-type byte; unrecognized codes fall back to no controller.
pub open spec fn spec_mbc_of_code(code: u8) -> MBCType {
    if code == 0x00 {
        MBCType::NoController
    } else if 0x01 <= code <= 0x03 {
        MBCType::MBC1
    } else if 0x05 <= code <= 0x06 {
        MBCType::MBC2
    } else if 0x0F <= code <= 0x13 {
        MBCType::MBC3
    } else if 0x19 <= code <= 0x1E {
        MBCType::MBC5
    } else {
        MBCType::NoController
    }
}

/// Whether the controller-type byte declares battery-backed RAM.
pub open spec fn spec_battery_of_code(code: u8) -> bool {
    code == 0x03 || code == 0x06 || code == 0x09 || code == 0x0D || code == 0x0F || code == 0x10
        || code == 0x13 || code == 0x1B || code == 0x1E
}

/// The address space after a cartridge image is loaded: the image padded to
/// whole banks, the controller family and battery flag taken from the header
/// when the image is long enough to hold one, and the bank-controller state
/// reset.
pub open spec fn spec_load_rom(m: MemModel, data: Seq<u8>) -> MemModel {
    MemModel {
        rom: Seq::new(spec_padded_len(data.len()), |i: int| if i < data.len() {
            data[i]
        } else {
            0u8
        }),
        mbc_type: if data.len() > 0x147 {
            spec_mbc_of_code(data[0x147])
        } else {
            m.mbc_type
        },
        battery_backed: if data.len() > 0x147 {
            spec_battery_of_code(data[0x147])
        } else {
            m.battery_backed
        },
        rom_bank: 1,
        ram_bank: 0,
        ram_enabled: false,
        banking_mode: 0,
        ..m
    }
}

impl Memory {
    /// Loads a cartridge image: infers the controller type and battery flag
    /// from the header byte, stores the image padded to whole banks, and
    /// resets the bank-controller state.
    pub fn load_rom(&mut self, rom_data: &[u8])
        requires
            old(self).wf(),
            rom_data@.len() <= 0x3FFF_0000,
        ensures
            final(self)@ == spec_load_rom(old(self)@, rom_data@),
            final(self).wf(),
    {
        let n = rom_data.len();
        let padded: usize = if n <= 2 * ROM_BANK_SIZE {
            2 * ROM_BANK_SIZE
        } else {
            proof {
                vstd::arithmetic::div_mod::lemma_fundamental_div_mod((n + ROM_BANK_SIZE - 1) as int,
                    ROM_BANK_SIZE as int);
                vstd::arithmetic::div_mod::lemma_mod_bound((n + ROM_BANK_SIZE - 1) as int,
                    ROM_BANK_SIZE as int);
            }
            ((n + ROM_BANK_SIZE - 1) / ROM_BANK_SIZE) * ROM_BANK_SIZE
        };
        proof {
            lemma_padded_len(n as nat);
            assert(padded == spec_padded_len(n as nat));
        }
        let mut rom: Vec<u8> = Vec::new();
        let mut i: usize = 0;
        while i < padded
            invariant
                i <= padded,
                n == rom_data@.len(),
                padded == spec_padded_len(n as nat),
                padded <= 0x4000_0000,
                rom@ =~= Seq::new(i as nat, |j: int| if j < n {
                    rom_data@[j]
                } else {
                    0u8
                }),
            decreases padded - i,
        {
            if i < n {
                rom.push(rom_data[i]);
            } else {
                rom.push(0);
            }
            i = i + 1;
        }
        self.rom = rom;
        if rom_data.len() > 0x147 {
            let code = rom_data[0x147];
            self.mbc_type = if code == 0x00 {
                MBCType::NoController
            } else if 0x01 <= code && code <= 0x03 {
                MBCType::MBC1
            } else if 0x05 <= code && code <= 0x06 {
                MBCType::MBC2
            } else if 0x0F <= code && code <= 0x13 {
                MBCType::MBC3
            } else if 0x19 <= code && code <= 0x1E {
                MBCType::MBC5
            } else {
                MBCType::NoController
            };
            self.battery_backed = code == 0x03 || code == 0x06 || code == 0x09 || code == 0x0D
                || code == 0x0F || code == 0x10 || code == 0x13 || code == 0x1B || code == 0x1E;
        }
        self.rom_bank = 1;
        self.ram_bank = 0;
        self.ram_enabled = false;
        self.banking_mode = 0;
        proof {
            lemma_padded_len(n as nat);
            assert(self@ =~= spec_load_rom(old(self)@, rom_data@));
        }
    }
}

/// The padded image length covers whole banks, at least two of them, covers
/// the image, and stays within the address-space cap for images under it.
pub proof fn lemma_padded_len(n: nat)
    requires
        n <= 0x3FFF_0000,
    ensures
        spec_padded_len(n) % ROM_BANK_SIZE as nat == 0,
        spec_padded_len(n) >= 2 * ROM_BANK_SIZE,
        spec_padded_len(n) >= n,
        spec_padded_len(n) <= 0x4000_0000,
{
    let size = ROM_BANK_SIZE as int;
    if n <= 2 * ROM_BANK_SIZE {
    } else {
        let q = (n + size - 1) as int / size;
        vstd::arithmetic::div_mod::lemma_fundamental_div_mod((n + size - 1) as int, size);
        vstd::arithmetic::div_mod::lemma_mod_bound((n + size - 1) as int, size);
        assert(q * size == (n + size - 1) - (n + size - 1) % size);
        vstd::arithmetic::div_mod::lemma_mod_multiples_basic(q, size);
        assert((q * size) % size == 0);
    }
}

} // verus!
