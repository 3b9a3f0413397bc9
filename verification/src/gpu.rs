//! The pixel processor: a per-scanline cycle counter stepped against fixed
//! mode thresholds (80 / 172 / 204 cycles per mode segment, 456 per full
//! line, 144 visible lines plus 10 blanking lines), raising the VBlank
//! request exactly once per frame, and a background renderer that fills a
//! fixed-dimension framebuffer of palette indices.

use vstd::prelude::*;
use crate::mmu::{MemModel, Memory, spec_rb};

verus! {

/// Framebuffer width in pixels.
pub const SCREEN_WIDTH: usize = 160;

/// Framebuffer height in pixels.
pub const SCREEN_HEIGHT: usize = 144;

/// The mathematical model of the pixel processor.
#[verifier::ext_equal]
pub ghost struct GpuModel {
    /// One palette index (0..=3) per pixel, row-major.
    pub framebuffer: Seq<u8>,
    /// Cycles accumulated within the current scanline.
    pub scanline_counter: u32,
    /// Current mode: 0 blank, 1 vertical blank, 2 search, 3 transfer.
    pub mode: u8,
    /// Set when a frame completes; the host clears it once read.
    pub updated: bool,
}

impl GpuModel {
    /// Well-formedness: the framebuffer covers the fixed screen dimensions.
    pub open spec fn wf(self) -> bool {
        self.framebuffer.len() == SCREEN_WIDTH * SCREEN_HEIGHT
    }
}

/// The pixel processor.
pub struct GPU {
    /// One palette index (0..=3) per pixel, row-major.
    pub framebuffer: Vec<u8>,
    /// Cycles accumulated within the current scanline.
    pub scanline_counter: u32,
    /// Current mode: 0 blank, 1 vertical blank, 2 search, 3 transfer.
    pub mode: u8,
    /// Set when a frame completes; the host clears it once read.
    pub updated: bool,
}

impl View for GPU {
    type V = GpuModel;

    open spec fn view(&self) -> GpuModel {
        GpuModel {
            framebuffer: self.framebuffer@,
            scanline_counter: self.scanline_counter,
            mode: self.mode,
            updated: self.updated,
        }
    }
}

/// The pixel processor at power-on: blank framebuffer, search mode.
pub open spec fn gpu_init() -> GpuModel {
    GpuModel {
        framebuffer: Seq::new((SCREEN_WIDTH * SCREEN_HEIGHT) as nat, |i: int| 0u8),
        scanline_counter: 0,
        mode: 2,
        updated: false,
    }
}

/// The background palette index of one pixel of one scanline, read from the
/// tile map and tile data selected by the LCD-control register.
pub open spec fn spec_bg_pixel(m: MemModel, ly: u16, px: u16) -> u8 {
    let lcdc = m.io[0x40];
    let tile_map: u16 = if lcdc & 0x08 != 0 { 0x9C00 } else { 0x9800 };
    let tile_index = spec_rb(m, (tile_map + (ly / 8) * 32 + px / 8) as u16);
    let tile_addr: u16 = if lcdc & 0x10 != 0 {
        (0x8000 + (tile_index as u16) * 16) as u16
    } else {
        (0x9000 + (tile_index as i8 as int) * 16) as u16
    };
    let line = ly % 8;
    let b1 = spec_rb(m, (tile_addr + line * 2) as u16);
    let b2 = spec_rb(m, (tile_addr + line * 2 + 1) as u16);
    let bit_index = (7 - px % 8) as u8;
    (((b2 >> bit_index) & 1) << 1) | ((b1 >> bit_index) & 1)
}

/// The framebuffer after one scanline is rendered: row `ly` holds the
/// background pixels, every other row is untouched.
pub open spec fn spec_render_scanline(fb: Seq<u8>, m: MemModel, ly: u16) -> Seq<u8> {
    Seq::new(fb.len(), |i: int| if ly * SCREEN_WIDTH <= i < ly * SCREEN_WIDTH + SCREEN_WIDTH {
        spec_bg_pixel(m, ly, (i - ly * SCREEN_WIDTH) as u16)
    } else {
        fb[i]
    })
}

/// The pixel processor and address space after one cycle-budget step.
///
/// The scanline counter accumulates; each 456 cycles the line register
/// advances, entering the blanking region at line 144 — raising the VBlank
/// request and completing the frame exactly then — and wrapping to line 0
/// past line 153. The mode then follows the counter against the fixed
/// thresholds, the current visible line is rendered during the transfer
/// segment, and the status register's mode bits are rewritten.
pub open spec fn spec_gpu_step(g: GpuModel, m: MemModel, cycles: u8) -> (GpuModel, MemModel) {
    let sc0 = g.scanline_counter.wrapping_add(cycles as u32);
    let current_line = m.io[0x44];
    let step1: (GpuModel, MemModel) = if sc0 >= 456 {
        let sc1 = (sc0 - 456) as u32;
        let new_line = current_line.wrapping_add(1);
        let m1 = MemModel { io: m.io.update(0x44, new_line), ..m };
        if new_line == 144 {
            (
                GpuModel { scanline_counter: sc1, mode: 0, updated: true, ..g },
                MemModel {
                    io: m1.io.update(0x0F, m1.io[0x0F] | 0x01).update(0x41, m1.io[0x41] & 0xFC),
                    ..m1
                },
            )
        } else if new_line > 153 {
            (
                GpuModel { scanline_counter: sc1, ..g },
                MemModel { io: m1.io.update(0x44, 0), ..m1 },
            )
        } else {
            (GpuModel { scanline_counter: sc1, ..g }, m1)
        }
    } else {
        (GpuModel { scanline_counter: sc0, ..g }, m)
    };
    let g1 = step1.0;
    let m1 = step1.1;
    let ly = m1.io[0x44];
    let step2: GpuModel = if ly >= 144 {
        GpuModel { mode: 1, ..g1 }
    } else if g1.scanline_counter < 80 {
        GpuModel { mode: 2, ..g1 }
    } else if g1.scanline_counter < 252 {
        GpuModel {
            mode: 3,
            framebuffer: spec_render_scanline(g1.framebuffer, m1, ly as u16),
            ..g1
        }
    } else {
        GpuModel { mode: 0, ..g1 }
    };
    (
        step2,
        MemModel { io: m1.io.update(0x41, (m1.io[0x41] & 0xFC) | (step2.mode & 0x03)), ..m1 },
    )
}

impl GPU {
    /// A pixel processor with a blank framebuffer, in search mode.
    pub fn new() -> (r: GPU)
        ensures
            r@ == gpu_init(),
            r@.wf(),
    {
        let r = GPU {
            framebuffer: vec![0u8; SCREEN_WIDTH * SCREEN_HEIGHT],
            scanline_counter: 0,
            mode: 2,
            updated: false,
        };
        proof {
            assert(r@ =~= gpu_init());
        }
        r
    }

    /// Renders the background of one visible scanline into the framebuffer.
    pub fn render_scanline(&mut self, mem: &Memory, ly: u16)
        requires
            old(self)@.wf(),
            mem.wf(),
            ly < 144,
        ensures
            final(self)@ == (GpuModel {
                framebuffer: spec_render_scanline(old(self)@.framebuffer, mem@, ly),
                ..old(self)@
            }),
            final(self)@.wf(),
    {
        let base: usize = (ly as usize) * SCREEN_WIDTH;
        let mut px: usize = 0;
        while px < SCREEN_WIDTH
            invariant
                px <= SCREEN_WIDTH,
                ly < 144,
                base == ly * SCREEN_WIDTH,
                mem.wf(),
                self@.framebuffer.len() == SCREEN_WIDTH * SCREEN_HEIGHT,
                self@ == (GpuModel { framebuffer: self@.framebuffer, ..old(self)@ }),
                forall|i: int| 0 <= i < base ==> self@.framebuffer[i]
                    == old(self)@.framebuffer[i],
                forall|i: int| base + px <= i < SCREEN_WIDTH * SCREEN_HEIGHT
                    ==> self@.framebuffer[i] == old(self)@.framebuffer[i],
                forall|j: int| 0 <= j < px ==> #[trigger] self@.framebuffer[base + j]
                    == spec_bg_pixel(mem@, ly, j as u16),
            decreases SCREEN_WIDTH - px,
        {
            proof {
                assert(ly * SCREEN_WIDTH + px < SCREEN_WIDTH * SCREEN_HEIGHT) by (nonlinear_arith)
                    requires
                        ly < 144,
                        px < SCREEN_WIDTH,
                        SCREEN_WIDTH == 160,
                        SCREEN_HEIGHT == 144,
                ;
            }
            let v = self.bg_pixel(mem, ly, px as u16);
            self.framebuffer[base + px] = v;
            px = px + 1;
        }
        proof {
            assert forall|i: int| base <= i < base + SCREEN_WIDTH implies self@.framebuffer[i]
                == spec_bg_pixel(mem@, ly, (i - base) as u16) by {
                let j = i - base;
                assert(self@.framebuffer[base + j] == spec_bg_pixel(mem@, ly, j as u16));
            }
            assert(self@.framebuffer =~= spec_render_scanline(old(self)@.framebuffer, mem@, ly));
            assert(self@ =~= (GpuModel {
                framebuffer: spec_render_scanline(old(self)@.framebuffer, mem@, ly),
                ..old(self)@
            }));
        }
    }

    /// Computes the background palette index of one pixel.
    fn bg_pixel(&self, mem: &Memory, ly: u16, px: u16) -> (r: u8)
        requires
            mem.wf(),
            ly < 144,
            px < 160,
        ensures
            r == spec_bg_pixel(mem@, ly, px),
    {
        let lcdc = mem.read_byte(0xFF40);
        proof {
            assert(mem@.io[0x40] == lcdc);
        }
        let tile_map: u16 = if lcdc & 0x08 != 0 {
            0x9C00
        } else {
            0x9800
        };
        let tile_index = mem.read_byte(tile_map + (ly / 8) * 32 + px / 8);
        let tile_addr: u16 = if lcdc & 0x10 != 0 {
            0x8000 + (tile_index as u16) * 16
        } else {
            proof {
                assert(-128 <= tile_index as i8 <= 127);
            }
            (0x9000i32 + (tile_index as i8 as i32) * 16) as u16
        };
        let line = ly % 8;
        let b1 = mem.read_byte(tile_addr + line * 2);
        let b2 = mem.read_byte(tile_addr + line * 2 + 1);
        let bit_index = (7 - (px % 8)) as u8;
        (((b2 >> bit_index) & 1) << 1) | ((b1 >> bit_index) & 1)
    }

    /// Advances the pixel processor by a cycle budget; see `spec_gpu_step`.
    pub fn step(&mut self, mem: &mut Memory, cycles: u8)
        requires
            old(self)@.wf(),
            old(mem).wf(),
        ensures
            (final(self)@, final(mem)@) == spec_gpu_step(old(self)@, old(mem)@, cycles),
            final(self)@.wf(),
            final(mem).wf(),
    {
        self.scanline_counter = self.scanline_counter.wrapping_add(cycles as u32);
        let current_line = mem.io_registers[0x44];
        if self.scanline_counter >= 456 {
            self.scanline_counter = self.scanline_counter - 456;
            let new_line = current_line.wrapping_add(1);
            mem.io_registers[0x44] = new_line;
            if new_line == 144 {
                // Entering the blanking region: raise the VBlank request and
                // complete the frame, exactly once per frame.
                let iflag = mem.io_registers[0x0F];
                mem.io_registers[0x0F] = iflag | 0x01;
                let stat = mem.io_registers[0x41];
                mem.io_registers[0x41] = stat & 0xFC;
                self.mode = 0;
                self.updated = true;
            } else if new_line > 153 {
                mem.io_registers[0x44] = 0;
            }
        }

        let ly = mem.io_registers[0x44];
        if ly >= 144 {
            self.mode = 1;
        } else if self.scanline_counter < 80 {
            self.mode = 2;
        } else if self.scanline_counter < 252 {
            self.mode = 3;
            self.render_scanline(mem, ly as u16);
        } else {
            self.mode = 0;
        }

        let stat = mem.io_registers[0x41];
        mem.io_registers[0x41] = (stat & 0xFC) | (self.mode & 0x03);
        proof {
            assert(self@ =~= spec_gpu_step(old(self)@, old(mem)@, cycles).0);
            assert(mem@ =~= spec_gpu_step(old(self)@, old(mem)@, cycles).1);
        }
    }
}

} // verus!
