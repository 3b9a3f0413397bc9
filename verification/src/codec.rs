//! The snapshot codec: serializes the whole aggregate — registers, run
//! state, every address-space region, bank-controller state and every
//! peripheral's counters — into one self-describing blob, and restores it,
//! rejecting foreign or corrupt input without touching the prior state.

use vstd::prelude::*;
use crate::CoreError;
use crate::cpu::{CPU, CpuModel};
use crate::device::Device;
use crate::gpu::{GPU, GpuModel};
use crate::keypad::Keypad;
use crate::mmu::{MBCType, MemModel, Memory, ROM_BANK_SIZE};
use crate::registers::Registers;
use crate::serial::Serial;
use crate::sound::Sound;
use crate::timer::Timer;

verus! {

/// Length of the fixed header block: magic, image length and every scalar.
pub const SNAP_HEAD: usize = 56;

/// Length of the fixed-size regions that follow the ROM image: video RAM,
/// external RAM, work RAM, object memory, the I/O block, high RAM and the
/// framebuffer.
pub const SNAP_TAIL: usize = 0x2000 + 0x8000 + 0x2000 + 0xA0 + 0x80 + 0x7F + 160 * 144;

/// One byte standing for a flag.
pub open spec fn spec_bool_byte(x: bool) -> u8 {
    if x {
        1u8
    } else {
        0u8
    }
}

/// The header byte standing for a bank-controller family.
pub open spec fn spec_mbc_code(t: MBCType) -> u8 {
    match t {
        MBCType::NoController => 0,
        MBCType::MBC1 => 1,
        MBCType::MBC2 => 2,
        MBCType::MBC3 => 3,
        MBCType::MBC5 => 4,
    }
}

/// The bank-controller family a code byte stands for.
pub open spec fn spec_mbc_from(code: u8) -> MBCType {
    if code == 0 {
        MBCType::NoController
    } else if code == 1 {
        MBCType::MBC1
    } else if code == 2 {
        MBCType::MBC2
    } else if code == 3 {
        MBCType::MBC3
    } else {
        MBCType::MBC5
    }
}

/// A 16-bit little-endian read at a byte offset.
pub open spec fn spec_u16le(b: Seq<u8>, i: int) -> u16 {
    (b[i] as u16) | ((b[i + 1] as u16) << 8)
}

/// A 32-bit little-endian read at a byte offset.
pub open spec fn spec_u32le(b: Seq<u8>, i: int) -> u32 {
    (b[i] as u32) | ((b[i + 1] as u32) << 8) | ((b[i + 2] as u32) << 16) | ((b[i + 3] as u32)
        << 24)
}

/// The fixed header block of a snapshot: magic and version, the ROM image
/// length, the register file, the run state, the bank-controller state, the
/// peripherals' scalar state.
pub open spec fn spec_enc_header(s: CpuModel) -> Seq<u8> {
    seq![
        0x47u8,
        0x42u8,
        0x53u8,
        0x01u8,
        (s.mem.rom.len() as u32 & 0xFF) as u8,
        ((s.mem.rom.len() as u32 >> 8) & 0xFF) as u8,
        ((s.mem.rom.len() as u32 >> 16) & 0xFF) as u8,
        ((s.mem.rom.len() as u32 >> 24) & 0xFF) as u8,
        s.reg.a,
        s.reg.f,
        s.reg.b,
        s.reg.c,
        s.reg.d,
        s.reg.e,
        s.reg.h,
        s.reg.l,
        (s.reg.sp & 0xFF) as u8,
        (s.reg.sp >> 8) as u8,
        (s.reg.pc & 0xFF) as u8,
        (s.reg.pc >> 8) as u8,
        spec_bool_byte(s.halted),
        spec_bool_byte(s.halt_bug),
        spec_bool_byte(s.ime),
        s.setdi,
        s.setei,
        spec_mbc_code(s.mem.mbc_type),
        (s.mem.rom_bank as u16 & 0xFF) as u8,
        (s.mem.rom_bank as u16 >> 8) as u8,
        s.mem.ram_bank as u8,
        spec_bool_byte(s.mem.ram_enabled),
        s.mem.banking_mode,
        spec_bool_byte(s.mem.ram_updated),
        spec_bool_byte(s.mem.battery_backed),
        spec_bool_byte(s.mem.cgb_mode),
        s.mem.speed,
        s.mem.interrupt_enable,
        s.mem.serial.data,
        s.mem.serial.control,
        s.mem.serial.interrupt,
        s.mem.keypad.directions,
        s.mem.keypad.buttons,
        s.mem.keypad.select,
        s.mem.keypad.interrupt,
        (s.timer.div_counter & 0xFF) as u8,
        (s.timer.div_counter >> 8) as u8,
        (s.gpu.scanline_counter & 0xFF) as u8,
        ((s.gpu.scanline_counter >> 8) & 0xFF) as u8,
        ((s.gpu.scanline_counter >> 16) & 0xFF) as u8,
        ((s.gpu.scanline_counter >> 24) & 0xFF) as u8,
        s.gpu.mode,
        spec_bool_byte(s.gpu.updated),
        spec_bool_byte(s.sound.on),
        (s.sound.cycle_accum & 0xFF) as u8,
        ((s.sound.cycle_accum >> 8) & 0xFF) as u8,
        ((s.sound.cycle_accum >> 16) & 0xFF) as u8,
        ((s.sound.cycle_accum >> 24) & 0xFF) as u8,
    ]
}

/// A whole snapshot: the header block, the ROM image, then every fixed-size
/// region in a fixed order.
pub open spec fn spec_enc(s: CpuModel) -> Seq<u8> {
    spec_enc_header(s) + s.mem.rom + s.mem.vram + s.mem.external_ram + s.mem.wram + s.mem.oam
        + s.mem.io + s.mem.hram + s.gpu.framebuffer
}

/// Whether a snapshot blob passes every structural check: magic and version,
/// a plausible ROM image length, the exact total length, and bank and mode
/// fields inside their ranges.
pub open spec fn spec_dec_ok(b: Seq<u8>) -> bool {
    &&& b.len() >= SNAP_HEAD
    &&& b[0] == 0x47
    &&& b[1] == 0x42
    &&& b[2] == 0x53
    &&& b[3] == 0x01
    &&& {
        let rl = spec_u32le(b, 4) as int;
        &&& rl % ROM_BANK_SIZE as int == 0
        &&& 2 * ROM_BANK_SIZE <= rl <= 0x4000_0000
        &&& b.len() == SNAP_HEAD + rl + SNAP_TAIL
        &&& 1 <= spec_u16le(b, 26)
        &&& (spec_u16le(b, 26) + 1) * ROM_BANK_SIZE as int <= rl
        &&& b[28] < 4
        &&& b[25] <= 4
        &&& b[30] <= 1
        &&& (b[34] == 1 || b[34] == 2)
    }
}

/// The core a snapshot blob describes, when the blob passes every check.
pub open spec fn spec_dec(b: Seq<u8>) -> Option<CpuModel> {
    if !spec_dec_ok(b) {
        None
    } else {
        let rl = spec_u32le(b, 4) as int;
        let rom_at = SNAP_HEAD as int;
        let vram_at = rom_at + rl;
        let ext_at = vram_at + 0x2000;
        let wram_at = ext_at + 0x8000;
        let oam_at = wram_at + 0x2000;
        let io_at = oam_at + 0xA0;
        let hram_at = io_at + 0x80;
        let fb_at = hram_at + 0x7F;
        Some(
            CpuModel {
                reg: Registers {
                    a: b[8],
                    f: b[9],
                    b: b[10],
                    c: b[11],
                    d: b[12],
                    e: b[13],
                    h: b[14],
                    l: b[15],
                    sp: spec_u16le(b, 16),
                    pc: spec_u16le(b, 18),
                },
                mem: MemModel {
                    rom: b.subrange(rom_at, vram_at),
                    vram: b.subrange(vram_at, ext_at),
                    external_ram: b.subrange(ext_at, wram_at),
                    wram: b.subrange(wram_at, oam_at),
                    oam: b.subrange(oam_at, io_at),
                    io: b.subrange(io_at, hram_at),
                    hram: b.subrange(hram_at, fb_at),
                    interrupt_enable: b[35],
                    serial: Serial { data: b[36], control: b[37], interrupt: b[38] },
                    keypad: Keypad {
                        directions: b[39],
                        buttons: b[40],
                        select: b[41],
                        interrupt: b[42],
                    },
                    mbc_type: spec_mbc_from(b[25]),
                    rom_bank: spec_u16le(b, 26) as usize,
                    ram_bank: b[28] as usize,
                    ram_enabled: b[29] != 0,
                    banking_mode: b[30],
                    ram_updated: b[31] != 0,
                    battery_backed: b[32] != 0,
                    cgb_mode: b[33] != 0,
                    speed: b[34],
                },
                timer: Timer { div_counter: spec_u16le(b, 43) },
                gpu: GpuModel {
                    framebuffer: b.subrange(fb_at, fb_at + 160 * 144),
                    scanline_counter: spec_u32le(b, 45),
                    mode: b[49],
                    updated: b[50] != 0,
                },
                sound: Sound { on: b[51] != 0, cycle_accum: spec_u32le(b, 52) },
                halted: b[20] != 0,
                halt_bug: b[21] != 0,
                ime: b[22] != 0,
                setdi: b[23],
                setei: b[24],
            },
        )
    }
}

/// A well-formed bank index fits in sixteen bits: the image length is capped
/// and each bank covers a fixed size.
proof fn lemma_rom_bank_fits(m: MemModel)
    requires
        m.wf(),
    ensures
        m.rom_bank < 0x10000,
{
    if m.rom_bank + 1 >= 0x10001 {
        vstd::arithmetic::mul::lemma_mul_inequality(0x10001, m.rom_bank as int + 1,
            ROM_BANK_SIZE as int);
    }
}

/// Splitting a 16-bit value into its two little-endian bytes and reading
/// them back is lossless.
proof fn lemma_u16_bytes(v: u16)
    ensures
        ((v & 0xFF) as u8 as u16) | (((v >> 8) as u8 as u16) << 8) == v,
{
    assert(((v & 0xFF) as u8 as u16) | (((v >> 8) as u8 as u16) << 8) == v) by (bit_vector);
}

/// Splitting a 32-bit value into its four little-endian bytes and reading
/// them back is lossless.
proof fn lemma_u32_bytes(v: u32)
    ensures
        ((v & 0xFF) as u8 as u32) | ((((v >> 8) & 0xFF) as u8 as u32) << 8) | ((((v >> 16)
            & 0xFF) as u8 as u32) << 16) | ((((v >> 24) & 0xFF) as u8 as u32) << 24) == v,
{
    assert(((v & 0xFF) as u8 as u32) | ((((v >> 8) & 0xFF) as u8 as u32) << 8) | ((((v >> 16)
        & 0xFF) as u8 as u32) << 16) | ((((v >> 24) & 0xFF) as u8 as u32) << 24) == v)
        by (bit_vector);
}

/// Restoring a saved snapshot yields the saved core exactly: register file,
/// memory contents, bank-controller state and every peripheral counter. A
/// resumed session therefore continues with cycle-identical behavior.
pub proof fn lemma_snapshot_roundtrip(s: CpuModel)
    requires
        s.wf(),
    ensures
        spec_dec(spec_enc(s)) == Some(s),
{
    let b = spec_enc(s);
    let h = spec_enc_header(s);
    assert(h.len() == SNAP_HEAD);
    let rl = s.mem.rom.len() as int;
    assert(b.len() == SNAP_HEAD + rl + SNAP_TAIL);
    let rlu = rl as u32;
    assert(s.mem.rom.len() as u32 == rlu);
    lemma_u32_bytes(rlu);
    assert(spec_u32le(b, 4) == rlu);
    let rbu = s.mem.rom_bank as u16;
    assert((s.mem.rom_bank + 1) * ROM_BANK_SIZE as int <= rl);
    lemma_rom_bank_fits(s.mem);
    lemma_u16_bytes(rbu);
    assert(spec_u16le(b, 26) == rbu);
    lemma_u16_bytes(s.reg.sp);
    lemma_u16_bytes(s.reg.pc);
    lemma_u16_bytes(s.timer.div_counter);
    lemma_u32_bytes(s.gpu.scanline_counter);
    lemma_u32_bytes(s.sound.cycle_accum);
    assert(spec_dec_ok(b));
    let m = spec_dec(b)->Some_0;
    let rom_at = SNAP_HEAD as int;
    let vram_at = rom_at + rl;
    let ext_at = vram_at + 0x2000;
    let wram_at = ext_at + 0x8000;
    let oam_at = wram_at + 0x2000;
    let io_at = oam_at + 0xA0;
    let hram_at = io_at + 0x80;
    let fb_at = hram_at + 0x7F;
    assert(b.subrange(rom_at, vram_at) =~= s.mem.rom);
    assert(b.subrange(vram_at, ext_at) =~= s.mem.vram);
    assert(b.subrange(ext_at, wram_at) =~= s.mem.external_ram);
    assert(b.subrange(wram_at, oam_at) =~= s.mem.wram);
    assert(b.subrange(oam_at, io_at) =~= s.mem.oam);
    assert(b.subrange(io_at, hram_at) =~= s.mem.io);
    assert(b.subrange(hram_at, fb_at) =~= s.mem.hram);
    assert(b.subrange(fb_at, fb_at + 160 * 144) =~= s.gpu.framebuffer);
    assert(m.reg =~= s.reg);
    assert(m.mem =~= s.mem);
    assert(m.gpu =~= s.gpu);
    assert(m =~= s);
}

/// Appends one flag byte.
fn push_bool(out: &mut Vec<u8>, x: bool)
    ensures
        final(out)@ == old(out)@.push(spec_bool_byte(x)),
{
    if x {
        out.push(1);
    } else {
        out.push(0);
    }
}

/// Appends a whole region.
fn push_region(out: &mut Vec<u8>, src: &Vec<u8>)
    ensures
        final(out)@ == old(out)@ + src@,
{
    let mut i: usize = 0;
    while i < src.len()
        invariant
            i <= src@.len(),
            out@ == old(out)@ + src@.take(i as int),
        decreases src@.len() - i,
    {
        out.push(src[i]);
        proof {
            assert(old(out)@ + src@.take(i + 1) =~= (old(out)@ + src@.take(i as int)).push(
                src@[i as int]));
        }
        i = i + 1;
    }
    proof {
        assert(old(out)@ + src@.take(src@.len() as int) =~= old(out)@ + src@);
    }
}

/// Copies one region out of a snapshot blob.
fn copy_range(b: &[u8], start: usize, len: usize) -> (r: Vec<u8>)
    requires
        start + len <= b@.len(),
    ensures
        r@ == b@.subrange(start as int, start as int + len as int),
{
    let n = b.len();
    let mut out: Vec<u8> = Vec::new();
    let mut i: usize = 0;
    while i < len
        invariant
            i <= len,
            n == b@.len(),
            start + len <= n,
            out@ == b@.subrange(start as int, start as int + i as int),
        decreases len - i,
    {
        out.push(b[start + i]);
        proof {
            assert(b@.subrange(start as int, start as int + i + 1) =~= b@.subrange(start as int,
                start as int + i as int).push(b@[start + i]));
        }
        i = i + 1;
    }
    out
}

impl Device {
    /// Serializes the fixed header block.
    #[verifier::rlimit(100)]
    fn encode_header(&self) -> (r: Vec<u8>)
        requires
            self.wf(),
        ensures
            r@ == spec_enc_header(self@),
    {
        let rl = self.cpu.memory.rom.len() as u32;
        let code: u8 = match self.cpu.memory.mbc_type {
            MBCType::NoController => 0,
            MBCType::MBC1 => 1,
            MBCType::MBC2 => 2,
            MBCType::MBC3 => 3,
            MBCType::MBC5 => 4,
        };
        proof {
            lemma_rom_bank_fits(self@.mem);
        }
        let rb = self.cpu.memory.rom_bank as u16;
        let sc = self.cpu.gpu.scanline_counter;
        let ca = self.cpu.sound.cycle_accum;
        let out: Vec<u8> = vec![
            0x47,
            0x42,
            0x53,
            0x01,
            (rl & 0xFF) as u8,
            ((rl >> 8) & 0xFF) as u8,
            ((rl >> 16) & 0xFF) as u8,
            ((rl >> 24) & 0xFF) as u8,
            self.cpu.registers.a,
            self.cpu.registers.f,
            self.cpu.registers.b,
            self.cpu.registers.c,
            self.cpu.registers.d,
            self.cpu.registers.e,
            self.cpu.registers.h,
            self.cpu.registers.l,
            (self.cpu.registers.sp & 0xFF) as u8,
            (self.cpu.registers.sp >> 8) as u8,
            (self.cpu.registers.pc & 0xFF) as u8,
            (self.cpu.registers.pc >> 8) as u8,
            if self.cpu.halted { 1 } else { 0 },
            if self.cpu.halt_bug { 1 } else { 0 },
            if self.cpu.ime { 1 } else { 0 },
            self.cpu.setdi,
            self.cpu.setei,
            code,
            (rb & 0xFF) as u8,
            (rb >> 8) as u8,
            self.cpu.memory.ram_bank as u8,
            if self.cpu.memory.ram_enabled { 1 } else { 0 },
            self.cpu.memory.banking_mode,
            if self.cpu.memory.ram_updated { 1 } else { 0 },
            if self.cpu.memory.battery_backed { 1 } else { 0 },
            if self.cpu.memory.cgb_mode { 1 } else { 0 },
            self.cpu.memory.speed,
            self.cpu.memory.interrupt_enable,
            self.cpu.memory.serial.data,
            self.cpu.memory.serial.control,
            self.cpu.memory.serial.interrupt,
            self.cpu.memory.keypad.directions,
            self.cpu.memory.keypad.buttons,
            self.cpu.memory.keypad.select,
            self.cpu.memory.keypad.interrupt,
            (self.cpu.timer.div_counter & 0xFF) as u8,
            (self.cpu.timer.div_counter >> 8) as u8,
            (sc & 0xFF) as u8,
            ((sc >> 8) & 0xFF) as u8,
            ((sc >> 16) & 0xFF) as u8,
            ((sc >> 24) & 0xFF) as u8,
            self.cpu.gpu.mode,
            if self.cpu.gpu.updated { 1 } else { 0 },
            if self.cpu.sound.on { 1 } else { 0 },
            (ca & 0xFF) as u8,
            ((ca >> 8) & 0xFF) as u8,
            ((ca >> 16) & 0xFF) as u8,
            ((ca >> 24) & 0xFF) as u8,
        ];
        proof {
            assert(out@ =~= spec_enc_header(self@));
        }
        out
    }

    /// Serializes the whole aggregate into one snapshot blob.
    pub fn save_state(&self) -> (r: Vec<u8>)
        requires
            self.wf(),
        ensures
            r@ == spec_enc(self@),
    {
        let mut out = self.encode_header();
        push_region(&mut out, &self.cpu.memory.rom);
        push_region(&mut out, &self.cpu.memory.vram);
        push_region(&mut out, &self.cpu.memory.external_ram);
        push_region(&mut out, &self.cpu.memory.wram);
        push_region(&mut out, &self.cpu.memory.oam);
        push_region(&mut out, &self.cpu.memory.io_registers);
        push_region(&mut out, &self.cpu.memory.hram);
        push_region(&mut out, &self.cpu.gpu.framebuffer);
        out
    }

    /// Restores a device from a snapshot blob; a malformed blob is rejected
    /// exactly when it fails the structural checks, and nothing is
    /// constructed then — the previously live state stays authoritative.
    #[verifier::rlimit(100)]
    pub fn load_state(data: &[u8]) -> (r: Result<Device, CoreError>)
        ensures
            match r {
                Ok(d) => spec_dec(data@) == Some(d@) && d.wf(),
                Err(e) => spec_dec(data@) is None && e == CoreError::CorruptState,
            },
    {
        if data.len() < SNAP_HEAD {
            return Err(CoreError::CorruptState);
        }
        if !(data[0] == 0x47 && data[1] == 0x42 && data[2] == 0x53 && data[3] == 0x01) {
            return Err(CoreError::CorruptState);
        }
        let rl_u32 = (data[4] as u32) | ((data[5] as u32) << 8) | ((data[6] as u32) << 16) | ((
        data[7] as u32) << 24);
        proof {
            assert(rl_u32 == spec_u32le(data@, 4));
        }
        if !(rl_u32 as usize % ROM_BANK_SIZE == 0 && 2 * ROM_BANK_SIZE <= rl_u32 as usize
            && rl_u32 <= 0x4000_0000) {
            return Err(CoreError::CorruptState);
        }
        let rl = rl_u32 as usize;
        if data.len() != SNAP_HEAD + rl + SNAP_TAIL {
            return Err(CoreError::CorruptState);
        }
        let rom_bank16 = (data[26] as u16) | ((data[27] as u16) << 8);
        proof {
            assert(rom_bank16 == spec_u16le(data@, 26));
        }
        let rom_bank = rom_bank16 as usize;
        if !(1 <= rom_bank && (rom_bank + 1) * ROM_BANK_SIZE <= rl) {
            return Err(CoreError::CorruptState);
        }
        if !(data[28] < 4 && data[25] <= 4 && data[30] <= 1 && (data[34] == 1 || data[34] == 2)) {
            return Err(CoreError::CorruptState);
        }
        assert(spec_dec_ok(data@));
        let rom_at: usize = SNAP_HEAD;
        let vram_at = rom_at + rl;
        let ext_at = vram_at + 0x2000;
        let wram_at = ext_at + 0x8000;
        let oam_at = wram_at + 0x2000;
        let io_at = oam_at + 0xA0;
        let hram_at = io_at + 0x80;
        let fb_at = hram_at + 0x7F;
        let code = data[25];
        let mbc_type = if code == 0 {
            MBCType::NoController
        } else if code == 1 {
            MBCType::MBC1
        } else if code == 2 {
            MBCType::MBC2
        } else if code == 3 {
            MBCType::MBC3
        } else {
            MBCType::MBC5
        };
        let memory = Memory {
            rom: copy_range(data, rom_at, rl),
            vram: copy_range(data, vram_at, 0x2000),
            external_ram: copy_range(data, ext_at, 0x8000),
            wram: copy_range(data, wram_at, 0x2000),
            oam: copy_range(data, oam_at, 0xA0),
            io_registers: copy_range(data, io_at, 0x80),
            hram: copy_range(data, hram_at, 0x7F),
            interrupt_enable: data[35],
            serial: Serial { data: data[36], control: data[37], interrupt: data[38] },
            keypad: Keypad {
                directions: data[39],
                buttons: data[40],
                select: data[41],
                interrupt: data[42],
            },
            mbc_type,
            rom_bank,
            ram_bank: data[28] as usize,
            ram_enabled: data[29] != 0,
            banking_mode: data[30],
            ram_updated: data[31] != 0,
            battery_backed: data[32] != 0,
            cgb_mode: data[33] != 0,
            speed: data[34],
        };
        let gpu = GPU {
            framebuffer: copy_range(data, fb_at, 160 * 144),
            scanline_counter: (data[45] as u32) | ((data[46] as u32) << 8) | ((data[47] as u32)
                << 16) | ((data[48] as u32) << 24),
            mode: data[49],
            updated: data[50] != 0,
        };
        let cpu = CPU {
            registers: Registers {
                a: data[8],
                f: data[9],
                b: data[10],
                c: data[11],
                d: data[12],
                e: data[13],
                h: data[14],
                l: data[15],
                sp: (data[16] as u16) | ((data[17] as u16) << 8),
                pc: (data[18] as u16) | ((data[19] as u16) << 8),
            },
            memory,
            timer: Timer { div_counter: (data[43] as u16) | ((data[44] as u16) << 8) },
            gpu,
            sound: Sound {
                on: data[51] != 0,
                cycle_accum: (data[52] as u32) | ((data[53] as u32) << 8) | ((data[54] as u32)
                    << 16) | ((data[55] as u32) << 24),
            },
            halted: data[20] != 0,
            halt_bug: data[21] != 0,
            ime: data[22] != 0,
            setdi: data[23],
            setei: data[24],
        };
        let d = Device { cpu };
        proof {
            assert(d@ =~= spec_dec(data@)->Some_0);
        }
        Ok(d)
    }
}

} // verus!
