pub mod regs;

use vstd::prelude::*;
use crate::console::cartridge::{Cartridge, CartridgeView};
use crate::bits::lemma_masks;
use crate::console::ppu::regs::{
    ControllerReg, MaskReg, ScrollReg, StatusReg, controller_reg_of, mask_reg_of, status_byte,
    lemma_addr_halves, lemma_scroll_readers, lemma_scroll_writers, lemma_small_masks,
};

verus! {

/// A sprite selected for the current or next scanline.
#[derive(Clone, Copy, PartialEq, Eq, Structural)]
pub struct Sprite {
    pub sprite_idx: u8,
    pub x_pos: u8,
    pub y_pos: u8,
    pub tile_idx: u8,
    pub attributes: u8,
    pub pattern: u16,
}

pub open spec fn empty_sprite() -> Sprite {
    Sprite { sprite_idx: 0, x_pos: 0, y_pos: 0, tile_idx: 0, attributes: 0, pattern: 0 }
}

pub const SCREEN_PIXELS: usize = 256 * 240;

pub const REG_CONTROLLER: u16 = 0x2000;
pub const REG_MASK: u16 = 0x2001;
pub const REG_STATUS: u16 = 0x2002;
pub const REG_OAM_ADDR: u16 = 0x2003;
pub const REG_OAM_DATA: u16 = 0x2004;
pub const REG_SCROLL: u16 = 0x2005;
pub const REG_ADDR: u16 = 0x2006;
pub const REG_DATA: u16 = 0x2007;
pub const PPU_BUS_MIRROR_MASK: u16 = 0x2007;

pub const CYCLES_PER_LINE: usize = 341;
pub const LAST_LINE: isize = 261;
pub const RENDER_LINES: isize = 240;
pub const VBLANK_START_LINE: isize = 241;

/// The picture processing unit.
pub struct Ppu {
    pub vram: Vec<u8>,
    pub palette: Vec<u8>,
    pub oam: Vec<u8>,
    pub render_oam: Vec<Sprite>,
    pub prefetch_oam: Vec<Sprite>,
    pub ctrl: ControllerReg,
    pub mask: MaskReg,
    pub status: StatusReg,
    pub scroll: ScrollReg,
    pub vaddr: ScrollReg,
    pub oam_addr: u8,
    pub read_buf: u8,
    pub scanline: isize,
    pub x: usize,
    pub nmi_up: bool,
    pub frame: Vec<u8>,
    pub bg_pattern_shift: u32,
    pub bg_attr_shift: u32,
    pub read_addr: u16,
    pub sp_in_idx: usize,
    pub sp_out_idx: usize,
    pub sp_render_idx: usize,
    pub pattern_addr: u16,
    pub pattern: u16,
    pub sprite_data: u8,
    pub attribute: u8,
    pub cycle: usize,
}

/// Abstract state of the PPU.
pub struct PpuView {
    pub vram: Seq<u8>,
    pub palette: Seq<u8>,
    pub oam: Seq<u8>,
    pub render_oam: Seq<Sprite>,
    pub prefetch_oam: Seq<Sprite>,
    pub ctrl: ControllerReg,
    pub mask: MaskReg,
    pub status: StatusReg,
    pub scroll: ScrollReg,
    pub vaddr: ScrollReg,
    pub oam_addr: u8,
    pub read_buf: u8,
    pub scanline: isize,
    pub x: usize,
    pub nmi_up: bool,
    pub frame: Seq<u8>,
    pub bg_pattern_shift: u32,
    pub bg_attr_shift: u32,
    pub read_addr: u16,
    pub sp_in_idx: usize,
    pub sp_out_idx: usize,
    pub sp_render_idx: usize,
    pub pattern_addr: u16,
    pub pattern: u16,
    pub sprite_data: u8,
    pub attribute: u8,
    pub cycle: usize,
}

impl View for Ppu {
    type V = PpuView;

    open spec fn view(&self) -> PpuView {
        PpuView {
            vram: self.vram@,
            palette: self.palette@,
            oam: self.oam@,
            render_oam: self.render_oam@,
            prefetch_oam: self.prefetch_oam@,
            ctrl: self.ctrl,
            mask: self.mask,
            status: self.status,
            scroll: self.scroll,
            vaddr: self.vaddr,
            oam_addr: self.oam_addr,
            read_buf: self.read_buf,
            scanline: self.scanline,
            x: self.x,
            nmi_up: self.nmi_up,
            frame: self.frame@,
            bg_pattern_shift: self.bg_pattern_shift,
            bg_attr_shift: self.bg_attr_shift,
            read_addr: self.read_addr,
            sp_in_idx: self.sp_in_idx,
            sp_out_idx: self.sp_out_idx,
            sp_render_idx: self.sp_render_idx,
            pattern_addr: self.pattern_addr,
            pattern: self.pattern,
            sprite_data: self.sprite_data,
            attribute: self.attribute,
            cycle: self.cycle,
        }
    }
}

/// Palette entry of a palette-RAM address: entries 0x3F10/14/18/1C share entry 0.
pub open spec fn palette_index(addr: u16) -> usize {
    if addr >= 0x3f10 && addr % 4 == 0 {
        0
    } else {
        (addr & 0x001f) as usize
    }
}

/// Two pattern bytes (low plane in bits 0-7, high plane in 8-15) interleaved so that
/// each pixel's two bits are adjacent.
pub open spec fn interleaved(p: u16) -> u16 {
    let p1 = (p & 0xF00F) | ((p & 0x0F00) >> 4) | ((p & 0x00F0) << 4);
    let p2 = (p1 & 0xC3C3) | ((p1 & 0x3030) >> 2) | ((p1 & 0x0C0C) << 2);
    (p2 & 0x9999) | ((p2 & 0x4444) >> 1) | ((p2 & 0x2222) << 1)
}

impl PpuView {
    pub open spec fn wf(self) -> bool {
        &&& self.vram.len() == 2048
        &&& self.palette.len() == 32
        &&& self.oam.len() == 256
        &&& self.render_oam.len() == 8
        &&& self.prefetch_oam.len() == 8
        &&& self.frame.len() == SCREEN_PIXELS
        &&& self.ctrl.wf()
        &&& self.scroll.wf()
        &&& self.vaddr.wf()
        &&& -1 <= self.scanline <= 260
        &&& self.x < 341
        &&& self.sp_in_idx <= 64
        &&& self.sp_out_idx <= 8
        &&& self.sp_render_idx <= 8
        &&& self.read_addr < 0x3000
        &&& self.pattern_addr <= 0x2007
        &&& self.attribute <= 3
    }

    // ---- memory seen by the rendering pipeline ----

    /// Whether an internal read of `addr` stays out of palette RAM and is served.
    pub open spec fn internal_ok(self, cart: CartridgeView, addr: u16) -> bool {
        (addr & 0x3FFF) < 0x3F00
    }

    /// Value the rendering pipeline reads at `addr` (pattern tables from the cartridge,
    /// nametables from VRAM).
    pub open spec fn internal_value(self, cart: CartridgeView, addr: u16) -> u8 {
        let a = addr & 0x3FFF;
        if a <= 0x1FFF {
            cart.ppu_value(a)
        } else {
            self.vram[cart.vram_index(a) as int]
        }
    }

    // ---- rendering pipeline ----

    pub open spec fn tile_fetch(self) -> bool {
        self.x <= 255 || (320 <= self.x && self.x <= 335)
    }

    pub open spec fn bg_pattern_addr(self, cart: CartridgeView) -> u16 {
        (0x1000 * self.ctrl.bg_half + 16 * (self.internal_value(cart, self.read_addr) as u16)
            + (self.vaddr.spec_y_fine() as u16)) as u16
    }

    /// Address of the attribute byte covering the current tile.
    pub open spec fn attribute_addr(self) -> u16 {
        (0x23C0 + 0x400 * self.vaddr.spec_base_nametable() + 8 * (self.vaddr.spec_y_coarse() >> 2)
            + (self.vaddr.spec_x_coarse() >> 2)) as u16
    }

    /// Pattern address of the current row of a sprite (8x8 or 8x16).
    pub open spec fn sprite_pattern_addr(self, sprite: Sprite) -> u16 {
        let line0 = (self.scanline as u16).wrapping_sub(sprite.y_pos as u16);
        let line = if sprite.attributes & 0x80 != 0 {
            (self.ctrl.sprite_size as u16).wrapping_sub(1).wrapping_sub(line0)
        } else {
            line0
        };
        let base = if self.ctrl.sprite_size == 16 {
            (0x1000 * ((sprite.tile_idx as u16) & 0x01) + 0x10 * ((sprite.tile_idx as u16) & 0xFE)) as u16
        } else {
            (0x1000 * self.ctrl.sprite_half + 0x10 * (sprite.tile_idx as u16)) as u16
        };
        (base + (line & 0x7) + (line & 0x8) * 2) as u16
    }

    /// The memory-fetch part of one rendering cycle, by position within the 8-cycle
    /// fetch pattern.
    #[verifier::opaque]
    pub open spec fn fetched(self, cart: CartridgeView) -> PpuView {
        let tf = self.tile_fetch();
        let m = self.x % 8;
        if m == 0 || (m == 2 && !tf) {
            PpuView { read_addr: (0x2000 + (self.vaddr.spec_addr() & 0xFFF)) as u16, ..self }
        } else if m == 1 && !tf {
            PpuView { pattern_addr: self.bg_pattern_addr(cart), ..self }
        } else if m == 1 && tf {
            PpuView {
                pattern_addr: self.bg_pattern_addr(cart),
                bg_pattern_shift: (self.bg_pattern_shift >> 16) | ((self.pattern as u32) << 16),
                bg_attr_shift: ((self.bg_attr_shift >> 16) + 0x5555_0000 * (self.attribute as u32)) as u32,
                ..self
            }
        } else if m == 2 && tf {
            PpuView { read_addr: self.attribute_addr(), ..self }
        } else if m == 3 && tf {
            let tile_attribute = self.internal_value(cart, self.read_addr);
            let offset = (self.vaddr.spec_x_coarse() & 0x2) + 2 * (self.vaddr.spec_y_coarse() & 0x2);
            let v1 = self.vaddr.with_x_coarse(((self.vaddr.spec_x_coarse() + 1) as u16) & 0x1F);
            let v2 = if v1.spec_x_coarse() == 0 {
                v1.with_base_nametable_h((1 - v1.spec_base_nametable_h()) as u8)
            } else {
                v1
            };
            PpuView { attribute: (tile_attribute >> offset) & 0x3, vaddr: v2, ..self }
        } else if m == 3 && !tf && self.sp_render_idx < self.sp_out_idx {
            let sprite = self.prefetch_oam[self.sp_render_idx as int];
            PpuView {
                render_oam: self.render_oam.update(self.sp_render_idx as int, sprite),
                pattern_addr: self.sprite_pattern_addr(sprite),
                ..self
            }
        } else if m == 5 {
            PpuView { pattern: self.internal_value(cart, self.pattern_addr) as u16, ..self }
        } else if m == 7 {
            let p = interleaved(
                self.pattern | ((self.internal_value(cart, (self.pattern_addr + 8) as u16) as u16)
                    << 8),
            );
            if !tf && self.sp_render_idx < self.sp_out_idx {
                let i = self.sp_render_idx as int;
                PpuView {
                    pattern: p,
                    render_oam: self.render_oam.update(i, Sprite { pattern: p, ..self.render_oam[i] }),
                    sp_render_idx: (self.sp_render_idx + 1) as usize,
                    ..self
                }
            } else {
                PpuView { pattern: p, ..self }
            }
        } else {
            self
        }
    }

    /// At the start of each line the sprite counters are reset.
    pub open spec fn line_started(self) -> PpuView {
        if self.x == 0 {
            PpuView {
                sp_in_idx: 0,
                sp_out_idx: 0,
                oam_addr: if self.mask.show_sprites { 0 } else { self.oam_addr },
                ..self
            }
        } else {
            self
        }
    }

    /// Scroll copies from the temporary register while the background is shown.
    pub open spec fn scroll_reloaded(self) -> PpuView {
        if self.mask.show_bg {
            if self.x == 304 && self.scanline == -1 {
                PpuView { vaddr: self.vaddr.with_addr(self.scroll.spec_addr()), ..self }
            } else if self.x == 256 {
                PpuView {
                    vaddr: self.vaddr.with_x_coarse(self.scroll.spec_x_coarse()).with_base_nametable_h(
                        self.scroll.spec_base_nametable_h(),
                    ),
                    sp_render_idx: 0,
                    ..self
                }
            } else {
                self
            }
        } else {
            self
        }
    }

    /// At the end of a line the vertical position advances, wrapping to the next
    /// nametable after row 29.
    pub open spec fn y_stepped(self) -> PpuView {
        if self.x == 251 {
            let v1 = self.vaddr.with_y(self.vaddr.spec_y().wrapping_add(1));
            if v1.spec_y() != 0 && v1.spec_y_coarse() == 30 {
                PpuView {
                    vaddr: v1.with_y_coarse(0).with_base_nametable_v(
                        (1 - v1.spec_base_nametable_v()) as u8,
                    ),
                    ..self
                }
            } else {
                PpuView { vaddr: v1, ..self }
            }
        } else {
            self
        }
    }

    /// Sprite evaluation, OAM byte 0: the sprite's Y position; sprites not on the current
    /// line are skipped.
    pub open spec fn sprite_y_examined(self) -> PpuView {
        let next = self.oam_addr.wrapping_add(1);
        let o = self.sp_out_idx as int;
        if self.sp_in_idx >= 64 {
            PpuView { oam_addr: 0, ..self }
        } else if self.sp_out_idx < 8 {
            let in_idx = (self.sp_in_idx + 1) as usize;
            let sp = Sprite { y_pos: self.sprite_data, sprite_idx: next / 4, ..self.prefetch_oam[o] };
            let y_start = self.sprite_data as int;
            let y_end = self.sprite_data.wrapping_add(self.ctrl.sprite_size) as int;
            let out_of_range = self.scanline < y_start || self.scanline >= y_end;
            PpuView {
                sp_in_idx: in_idx,
                prefetch_oam: self.prefetch_oam.update(o, sp),
                oam_addr: if out_of_range {
                    if in_idx == 2 { 8 } else { next.wrapping_add(3) }
                } else {
                    next
                },
                ..self
            }
        } else {
            PpuView { sp_in_idx: (self.sp_in_idx + 1) as usize, oam_addr: next, ..self }
        }
    }

    /// Sprite evaluation, OAM bytes 1-3: tile, attributes, X position; the X position
    /// completes the sprite, or flags an overflow when eight are already selected.
    pub open spec fn sprite_rest_examined(self, sel: u8) -> PpuView {
        let s = PpuView { oam_addr: self.oam_addr.wrapping_add(1), ..self };
        let o = self.sp_out_idx as int;
        if sel == 1 {
            if self.sp_out_idx < 8 {
                PpuView {
                    prefetch_oam: self.prefetch_oam.update(o, Sprite { tile_idx: self.sprite_data, ..self.prefetch_oam[o] }),
                    ..s
                }
            } else {
                s
            }
        } else if sel == 2 {
            if self.sp_out_idx < 8 {
                PpuView {
                    prefetch_oam: self.prefetch_oam.update(o, Sprite { attributes: self.sprite_data, ..self.prefetch_oam[o] }),
                    ..s
                }
            } else {
                s
            }
        } else {
            let s3 = if self.sp_out_idx < 8 {
                PpuView {
                    prefetch_oam: self.prefetch_oam.update(o, Sprite { x_pos: self.sprite_data, ..self.prefetch_oam[o] }),
                    sp_out_idx: (self.sp_out_idx + 1) as usize,
                    ..s
                }
            } else {
                PpuView { status: StatusReg { sprite_overflow: true, ..self.status }, ..s }
            };
            if self.sp_in_idx == 2 {
                PpuView { oam_addr: 8, ..s3 }
            } else {
                s3
            }
        }
    }

    /// Sprite evaluation: on odd cycles 65-255 one OAM byte is examined; on all other
    /// cycles the byte at the OAM address is latched.
    #[verifier::opaque]
    pub open spec fn sprites_evaluated(self) -> PpuView {
        if self.x >= 64 && self.x < 256 && self.x % 2 != 0 {
            let sel = self.oam_addr & 0x3;
            if sel == 0 {
                self.sprite_y_examined()
            } else {
                self.sprite_rest_examined(sel)
            }
        } else {
            PpuView { sprite_data: self.oam[self.oam_addr as int], ..self }
        }
    }

    /// The rendering pipeline leaves the beam position alone.
    pub proof fn lemma_render_keeps_position(self, cart: CartridgeView)
        ensures
            self.render_ticked(cart).x == self.x,
            self.render_ticked(cart).scanline == self.scanline,
            self.pixel_drawn().x == self.x,
            self.pixel_drawn().scanline == self.scanline,
    {
        reveal(PpuView::render_ticked);
        reveal(PpuView::fetched);
        reveal(PpuView::sprites_evaluated);
        reveal(PpuView::pixel_drawn);
    }

    /// One cycle of the rendering pipeline.
    #[verifier::opaque]
    pub open spec fn render_ticked(self, cart: CartridgeView) -> PpuView {
        self.fetched(cart).line_started().scroll_reloaded().y_stepped().sprites_evaluated()
    }

    // ---- pixel output ----

    /// Background pixel (2-bit colour) and its palette, from the shift registers.
    pub open spec fn bg_pixel(self) -> (u8, u8) {
        let fine_x = (self.x & 0x7) as u8;
        let tile_x = (((fine_x + self.scroll.spec_x_fine() + 8 * (if fine_x != 0 { 1u8 } else { 0u8 })) as u8)
            & 0xF) as u8;
        let shift = ((0xF - tile_x) * 2) as u8;
        let pixel = ((self.bg_pattern_shift >> shift) & 0x3) as u8;
        let attribute = if pixel > 0 {
            ((self.bg_attr_shift >> shift) & 0x3) as u8
        } else {
            0
        };
        (pixel, attribute)
    }

    /// Colour of sprite `i` at the current x, or 0 where it is transparent or absent.
    pub open spec fn sprite_color(self, i: int) -> u16 {
        let sprite = self.render_oam[i];
        let offset = (self.x as u16).wrapping_sub(sprite.x_pos as u16);
        if offset >= 8 {
            0
        } else {
            let o = if sprite.attributes & 0x40 == 0 { (7 - offset) as u16 } else { offset };
            (sprite.pattern >> (o * 2)) & 0x3
        }
    }

    /// The first of the sprites `i..sp_render_idx` that is opaque at the current x.
    pub open spec fn first_opaque_sprite(self, i: int) -> Option<int>
        decreases 8 - i,
    {
        if i >= self.sp_render_idx || i >= 8 || i < 0 {
            None
        } else if self.sprite_color(i) != 0 {
            Some(i)
        } else {
            self.first_opaque_sprite(i + 1)
        }
    }

    /// The sprite pixel at the current x: (behind background, colour, palette).
    pub open spec fn sprite_pixel_value(self) -> Option<(bool, u8, u8)> {
        match self.first_opaque_sprite(0) {
            Some(i) => {
                let sprite = self.render_oam[i];
                Some((sprite.attributes & 0x20 != 0, self.sprite_color(i) as u8, ((sprite.attributes & 3) + 4) as u8))
            },
            None => None,
        }
    }

    /// Sprite 0 is hit when it is the sprite drawn over an opaque background pixel.
    pub open spec fn sprite0_hits(self, bg: u8) -> bool {
        match self.first_opaque_sprite(0) {
            Some(i) => bg > 0 && self.render_oam[i].sprite_idx == 0,
            None => false,
        }
    }

    /// Final (pixel, palette) at the current position.
    pub open spec fn pixel_choice(self) -> (u8, u8) {
        let draw_bg = self.mask.show_bg && (self.mask.show_left_bg || self.x > 8);
        let draw_sp = self.mask.show_sprites && (self.mask.show_left_sp || self.x > 8);
        let (pixel, attribute) = if draw_bg { self.bg_pixel() } else { (0u8, 0u8) };
        if draw_sp {
            match self.sprite_pixel_value() {
                Some((behind, sp, attr)) => if !behind || pixel == 0 {
                    (sp, attr)
                } else {
                    (pixel, attribute)
                },
                None => (pixel, attribute),
            }
        } else {
            (pixel, attribute)
        }
    }

    #[verifier::opaque]
    pub open spec fn pixel_drawn(self) -> PpuView {
        let draw_bg = self.mask.show_bg && (self.mask.show_left_bg || self.x > 8);
        let draw_sp = self.mask.show_sprites && (self.mask.show_left_sp || self.x > 8);
        let bg = if draw_bg { self.bg_pixel().0 } else { 0u8 };
        let (pixel, attribute) = self.pixel_choice();
        let color = self.palette[(attribute * 4 + pixel) as int] & (if self.mask.greyscale { 0x30u8 } else { 0x3Fu8 });
        PpuView {
            frame: self.frame.update(self.scanline * 256 + self.x, color),
            status: if draw_sp && self.sprite0_hits(bg) {
                StatusReg { sprite0_hit: true, ..self.status }
            } else {
                self.status
            },
            ..self
        }
    }

    /// One PPU clock.
    #[verifier::opaque]
    pub open spec fn ticked(self, cart: CartridgeView) -> PpuView {
        let s0 = PpuView {
            cycle: self.cycle.wrapping_add(1),
            nmi_up: self.status.vblank && self.ctrl.generate_nmi,
            ..self
        };
        let s1 = if s0.scanline < RENDER_LINES && (s0.mask.show_bg || s0.mask.show_sprites) {
            s0.render_ticked(cart)
        } else {
            s0
        };
        let s2 = if s1.scanline < RENDER_LINES && s1.scanline >= 0 && s1.x < 256 {
            s1.pixel_drawn()
        } else {
            s1
        };
        s2.beam_advanced()
    }

    /// The end of a clock: the beam moves one dot on; at the end of a line it goes to the
    /// next one, clearing the flags and the picture after the last line and raising
    /// vertical blank on its first line.
    pub open spec fn beam_advanced(self) -> PpuView {
        if self.x + 1 >= CYCLES_PER_LINE {
            let line = self.scanline + 1;
            if line == LAST_LINE {
                PpuView {
                    x: 0,
                    scanline: -1isize,
                    status: StatusReg { vblank: false, sprite0_hit: false, sprite_overflow: false },
                    frame: Seq::new(SCREEN_PIXELS as nat, |i: int| 0u8),
                    ..self
                }
            } else if line == VBLANK_START_LINE {
                PpuView {
                    x: 0,
                    scanline: line as isize,
                    status: StatusReg { vblank: true, ..self.status },
                    cycle: 0,
                    ..self
                }
            } else {
                PpuView { x: 0, scanline: line as isize, ..self }
            }
        } else {
            PpuView { x: (self.x + 1) as usize, ..self }
        }
    }

    /// Whether the next clock runs the rendering pipeline (a visible or pre-render line
    /// with background or sprites shown), which reads pattern and nametable memory.
    pub open spec fn renders(self) -> bool {
        self.scanline < RENDER_LINES && (self.mask.show_bg || self.mask.show_sprites)
    }

    /// Whether a clock ends on the first line of vertical blank.
    pub open spec fn tick_starts_vblank(self) -> bool {
        self.x + 1 >= CYCLES_PER_LINE && self.scanline + 1 == VBLANK_START_LINE
    }
}

impl PpuView {
    // ---- CPU-facing ports ----

    /// Whether a port access is served: the data port needs an address below 0x4000.
    pub open spec fn port_ok(self, addr: u16) -> bool {
        (addr & PPU_BUS_MIRROR_MASK) == REG_DATA ==> self.vaddr.spec_addr() < 0x4000
    }

    pub open spec fn oam_value(self) -> u8 {
        if self.oam_addr % 4 == 2 {
            self.oam[self.oam_addr as int] & 0xE3
        } else {
            self.oam[self.oam_addr as int]
        }
    }

    /// Value of a read of the data port (buffered except for palette RAM).
    pub open spec fn data_value(self, cart: CartridgeView) -> u8 {
        let addr = self.vaddr.spec_addr();
        if addr >= 0x3F00 {
            self.palette[palette_index(addr) as int]
        } else {
            self.read_buf
        }
    }

    pub open spec fn after_data_read(self, cart: CartridgeView) -> PpuView {
        let addr = self.vaddr.spec_addr();
        PpuView {
            vaddr: self.vaddr.incremented(self.ctrl.increment),
            read_buf: if addr <= 0x1FFF {
                cart.ppu_value(addr)
            } else {
                self.vram[cart.vram_index(addr) as int]
            },
            ..self
        }
    }

    /// Value a CPU read of a PPU port returns (ports repeat every 8 bytes).
    pub open spec fn read_value(self, cart: CartridgeView, addr: u16) -> u8 {
        let a = addr & PPU_BUS_MIRROR_MASK;
        if a == REG_STATUS {
            status_byte(self.status)
        } else if a == REG_OAM_DATA {
            self.oam_value()
        } else if a == REG_DATA {
            self.data_value(cart)
        } else {
            0
        }
    }

    /// Reading the status clears vertical blank and the write latch.
    pub open spec fn after_read(self, cart: CartridgeView, addr: u16) -> PpuView {
        let a = addr & PPU_BUS_MIRROR_MASK;
        if a == REG_STATUS {
            PpuView {
                scroll: ScrollReg { offset: false, ..self.scroll },
                status: StatusReg { vblank: false, ..self.status },
                ..self
            }
        } else if a == REG_DATA {
            self.after_data_read(cart)
        } else {
            self
        }
    }

    pub open spec fn after_data_write(self, cart: CartridgeView, data: u8) -> PpuView {
        let addr = self.vaddr.spec_addr();
        let s = PpuView { vaddr: self.vaddr.incremented(self.ctrl.increment), ..self };
        if addr <= 0x1FFF {
            s
        } else if addr <= 0x3EFF {
            PpuView { vram: self.vram.update(cart.vram_index(addr) as int, data), ..s }
        } else {
            PpuView { palette: self.palette.update(palette_index(addr) as int, data), ..s }
        }
    }

    /// The PPU after a CPU write of `data` to a port.
    pub open spec fn after_write(self, cart: CartridgeView, addr: u16, data: u8) -> PpuView {
        let a = addr & PPU_BUS_MIRROR_MASK;
        if a == REG_CONTROLLER {
            let ctrl = controller_reg_of(data);
            PpuView { ctrl, scroll: self.scroll.with_base_nametable(ctrl.nametable), ..self }
        } else if a == REG_MASK {
            PpuView { mask: mask_reg_of(data), ..self }
        } else if a == REG_OAM_ADDR {
            PpuView { oam_addr: data, ..self }
        } else if a == REG_OAM_DATA {
            PpuView {
                oam: self.oam.update(self.oam_addr as int, data),
                oam_addr: self.oam_addr.wrapping_add(1),
                ..self
            }
        } else if a == REG_SCROLL {
            let scroll = ScrollReg {
                data: if self.scroll.offset {
                    self.scroll.with_y(data).data
                } else {
                    self.scroll.with_x(data).data
                },
                offset: !self.scroll.offset,
            };
            PpuView { scroll, ..self }
        } else if a == REG_ADDR {
            let scroll = ScrollReg {
                data: if self.scroll.offset {
                    self.scroll.with_addr_lo(data).data
                } else {
                    self.scroll.with_addr_hi(data & 0x3F).data
                },
                offset: !self.scroll.offset,
            };
            if !scroll.offset {
                PpuView { scroll, vaddr: self.vaddr.with_addr(scroll.spec_addr()), ..self }
            } else {
                PpuView { scroll, ..self }
            }
        } else if a == REG_DATA {
            self.after_data_write(cart, data)
        } else {
            self
        }
    }

    /// The cartridge after a CPU write to a PPU port: only data-port writes below
    /// 0x2000 reach pattern memory.
    pub open spec fn cart_after_write(self, cart: CartridgeView, addr: u16, data: u8) -> CartridgeView {
        if (addr & PPU_BUS_MIRROR_MASK) == REG_DATA && self.vaddr.spec_addr() <= 0x1FFF {
            cart.after_ppu_write(self.vaddr.spec_addr(), data)
        } else {
            cart
        }
    }
}

/// Bounds used by the rendering pipeline.
pub proof fn lemma_render_bits()
    by (bit_vector)
    ensures
        forall|v: u16| #[trigger] (v & 0xFFF) <= 0xFFF,
        forall|v: u16| v < 32 ==> #[trigger] (v >> 2) < 8,
        forall|v: u16| #[trigger] (v & 0x2) <= 2,
        forall|v: u16| #[trigger] (v & 0xFE) <= 0xFE,
        forall|v: u16| #[trigger] (v & 0x01) <= 1,
        forall|v: u16| #[trigger] (v & 0x7) <= 7,
        forall|v: u16| #[trigger] (v & 0x8) <= 8,
        forall|v: u8, o: u16| o <= 6 ==> #[trigger] ((v >> o) & 0x3) <= 3,
        forall|v: u32| #[trigger] (v >> 16) <= 0xFFFF,
        forall|v: u32, s: u8| s < 32 ==> #[trigger] ((v >> s) & 0x3) <= 3,
        forall|v: u8| #[trigger] (v & 0xF) <= 15,
        forall|v: u8| #[trigger] (v & 0x3) <= 3,
        forall|v: usize| #[trigger] (v & 0x7) <= 7,
        forall|v: u16, o: u16| o < 8 ==> #[trigger] ((v >> (o * 2)) & 0x3) <= 3,
        forall|v: u16| v <= 0x3010 ==> #[trigger] (v & 0x3FFF) == v,
{
}

impl Ppu {
    /// The power-on state of the PPU.
    pub open spec fn initial() -> PpuView {
        PpuView {
            vram: Seq::new(2048, |i: int| 0u8),
            palette: Seq::new(32, |i: int| 0u8),
            oam: Seq::new(256, |i: int| 0u8),
            render_oam: Seq::new(8, |i: int| empty_sprite()),
            prefetch_oam: Seq::new(8, |i: int| empty_sprite()),
            ctrl: ControllerReg::zeroed(),
            mask: MaskReg::cleared(),
            status: StatusReg::cleared(),
            scroll: ScrollReg { data: 0, offset: false },
            vaddr: ScrollReg { data: 0, offset: false },
            oam_addr: 0,
            read_buf: 0,
            scanline: 0,
            x: 0,
            nmi_up: false,
            frame: Seq::new(SCREEN_PIXELS as nat, |i: int| 0u8),
            bg_pattern_shift: 0,
            bg_attr_shift: 0,
            read_addr: 0,
            sp_in_idx: 0,
            sp_out_idx: 0,
            sp_render_idx: 0,
            pattern_addr: 0,
            pattern: 0,
            sprite_data: 0,
            attribute: 0,
            cycle: 0,
        }
    }

    pub fn new() -> (r: Self)
        ensures
            r@ == Ppu::initial(),
            r@.wf(),
    {
        let empty = Sprite { sprite_idx: 0, attributes: 0, pattern: 0, tile_idx: 0, x_pos: 0, y_pos: 0 };
        let r = Ppu {
            vram: vec![0; 2048],
            palette: vec![0; 32],
            oam: vec![0; 256],
            prefetch_oam: vec![empty; 8],
            render_oam: vec![empty; 8],
            ctrl: ControllerReg::default(),
            mask: MaskReg::default(),
            status: StatusReg::default(),
            oam_addr: 0,
            read_buf: 0,
            scroll: ScrollReg::new(),
            vaddr: ScrollReg::new(),
            scanline: 0,
            x: 0,
            nmi_up: false,
            frame: vec![0; SCREEN_PIXELS],
            bg_pattern_shift: 0,
            bg_attr_shift: 0,
            read_addr: 0,
            sp_in_idx: 0,
            sp_out_idx: 0,
            sp_render_idx: 0,
            pattern_addr: 0,
            pattern: 0,
            attribute: 0,
            sprite_data: 0,
            cycle: 0,
        };
        proof {
            assert(r@.vram =~= Ppu::initial().vram);
            assert(r@.palette =~= Ppu::initial().palette);
            assert(r@.oam =~= Ppu::initial().oam);
            assert(r@.render_oam =~= Ppu::initial().render_oam);
            assert(r@.prefetch_oam =~= Ppu::initial().prefetch_oam);
            assert(r@.frame =~= Ppu::initial().frame);
        }
        r
    }

    /// Clears the control and mask registers, the scroll register and the read buffer.
    pub fn reset(&mut self)
        requires
            old(self)@.wf(),
        ensures
            final(self)@ == (PpuView {
                ctrl: ControllerReg::zeroed(),
                mask: MaskReg::cleared(),
                scroll: ScrollReg { data: 0, offset: false },
                read_buf: 0,
                cycle: 0,
                ..old(self)@
            }),
            final(self)@.wf(),
    {
        self.ctrl = ControllerReg::default();
        self.mask = MaskReg::default();
        self.scroll.reset_latch();
        self.scroll.data = 0;
        self.read_buf = 0;
        self.cycle = 0;
    }

    /// Progresses by one PPU clock; returns whether vertical blank just started.
    #[verifier::rlimit(100)]
    pub fn tick(&mut self, cartridge: &mut Cartridge) -> (vblank_started: bool)
        requires
            old(self)@.wf(),
            old(self)@.renders() ==> old(cartridge)@.ppu_ready(),
        ensures
            final(cartridge)@ == old(cartridge)@,
            final(self)@ == old(self)@.ticked(old(cartridge)@),
            vblank_started == old(self)@.tick_starts_vblank(),
            final(self)@.wf(),
    {
        proof {
            reveal(PpuView::ticked);
        }
        let ghost cart0 = cartridge@;
        self.cycle = self.cycle.wrapping_add(1);
        self.nmi_up = self.status.vblank && self.ctrl.generate_nmi;
        if self.scanline < RENDER_LINES {
            if self.mask.show_bg || self.mask.show_sprites {
                proof {
                    assert(old(self)@.renders());
                    self@.lemma_render_keeps_position(cart0);
                }
                self.render_tick(cartridge);
            }
            if self.scanline >= 0 && self.x < 256 {
                proof {
                    self@.lemma_render_keeps_position(cart0);
                }
                self.draw_pixel();
            }
        }
        self.advance_beam()
    }

    /// The end of a clock; returns whether vertical blank just started.
    #[verifier::rlimit(40)]
    fn advance_beam(&mut self) -> (vblank_started: bool)
        requires
            old(self)@.wf(),
        ensures
            final(self)@ == old(self)@.beam_advanced(),
            vblank_started == old(self)@.tick_starts_vblank(),
            final(self)@.wf(),
    {
        self.x += 1;
        if self.x >= CYCLES_PER_LINE {
            self.x = 0;
            self.scanline += 1;
            if self.scanline == LAST_LINE {
                self.scanline = -1;
                self.status = StatusReg { vblank: false, sprite0_hit: false, sprite_overflow: false };
                self.frame = vec![0; SCREEN_PIXELS];
                proof {
                    assert(self.frame@ =~= Seq::new(SCREEN_PIXELS as nat, |i: int| 0u8));
                }
            } else if self.scanline == VBLANK_START_LINE {
                self.status = StatusReg { vblank: true, ..self.status };
                self.cycle = 0;
                return true;
            }
        }
        false
    }

    /// One cycle of the rendering pipeline.
    #[verifier::rlimit(30)]
    fn render_tick(&mut self, cartridge: &mut Cartridge)
        requires
            old(self)@.wf(),
            old(self)@.scanline < RENDER_LINES,
            old(cartridge)@.ppu_ready(),
        ensures
            final(cartridge)@ == old(cartridge)@,
            final(self)@ == old(self)@.render_ticked(old(cartridge)@),
            final(self)@.wf(),
    {
        proof {
            reveal(PpuView::render_ticked);
        }
        self.render_fetch(cartridge);
        self.start_line();
        self.reload_scroll();
        self.step_y();
        self.evaluate_sprites();
    }

    /// Reads rendering memory: pattern tables from the cartridge, nametables from VRAM.
    fn internal_read(&mut self, addr: u16, cartridge: &mut Cartridge) -> (r: u8)
        requires
            old(self)@.wf(),
            old(cartridge)@.ppu_ready(),
            (addr & 0x3FFF) < 0x3F00,
        ensures
            final(cartridge)@ == old(cartridge)@,
            *final(self) == *old(self),
            r == old(self)@.internal_value(old(cartridge)@, addr),
    {
        let addr = addr & 0x3FFF;
        if addr <= 0x1FFF {
            proof {
                cartridge@.lemma_chr_complete_accessible(addr);
            }
            cartridge.read_ppu(addr)
        } else {
            let i = cartridge.mirror_vram_addr(addr);
            self.vram[i]
        }
    }

    #[verifier::rlimit(100)]
    fn render_fetch(&mut self, cartridge: &mut Cartridge)
        requires
            old(self)@.wf(),
            old(cartridge)@.ppu_ready(),
        ensures
            final(cartridge)@ == old(cartridge)@,
            final(self)@ == old(self)@.fetched(old(cartridge)@),
            final(self)@.wf(),
    {
        proof {
            lemma_render_bits();
            lemma_scroll_readers(self.vaddr.data);
            lemma_small_bits();
            reveal(PpuView::fetched);
        }
        let tile_fetch = self.x <= 255 || (320 <= self.x && self.x <= 335);
        let m = self.x % 8;
        if m == 0 || (m == 2 && !tile_fetch) {
            self.read_addr = 0x2000 + (self.vaddr.addr() & 0xFFF);
        } else if m == 1 && !tile_fetch {
            let tile = self.internal_read(self.read_addr, cartridge);
            self.pattern_addr = 0x1000 * self.ctrl.bg_half + 16 * (tile as u16) + (self.vaddr.y_fine() as u16);
        } else if m == 1 && tile_fetch {
            let tile = self.internal_read(self.read_addr, cartridge);
            self.pattern_addr = 0x1000 * self.ctrl.bg_half + 16 * (tile as u16) + (self.vaddr.y_fine() as u16);
            self.bg_pattern_shift = (self.bg_pattern_shift >> 16) | ((self.pattern as u32) << 16);
            self.bg_attr_shift = (self.bg_attr_shift >> 16) + 0x5555_0000 * (self.attribute as u32);
        } else if m == 2 && tile_fetch {
            self.read_addr = 0x23C0 + 0x400 * self.vaddr.base_nametable() + 8 * (self.vaddr.y_coarse() >> 2)
                + (self.vaddr.x_coarse() >> 2);
        } else if m == 3 && tile_fetch {
            let tile_attribute = self.internal_read(self.read_addr, cartridge);
            let offset = (self.vaddr.x_coarse() & 0x2) + 2 * (self.vaddr.y_coarse() & 0x2);
            self.attribute = (tile_attribute >> offset) & 0x3;
            if self.vaddr.inc_x_coarse() {
                proof {
                    lemma_scroll_readers(self.vaddr.data);
                }
                let h = 1 - self.vaddr.base_nametable_h();
                self.vaddr.set_base_nametable_h(h);
            }
        } else if m == 3 && !tile_fetch && self.sp_render_idx < self.sp_out_idx {
            let sprite = self.prefetch_oam[self.sp_render_idx];
            self.render_oam.set(self.sp_render_idx, sprite);
            let mut sprite_line = (self.scanline as u16).wrapping_sub(sprite.y_pos as u16);
            if sprite.attributes & 0x80 != 0 {
                sprite_line = (self.ctrl.sprite_size as u16).wrapping_sub(1).wrapping_sub(sprite_line);
            }
            let base: u16 = if self.ctrl.sprite_size == 16 {
                0x1000 * ((sprite.tile_idx as u16) & 0x01) + 0x10 * ((sprite.tile_idx as u16) & 0xFE)
            } else {
                0x1000 * self.ctrl.sprite_half + 0x10 * (sprite.tile_idx as u16)
            };
            self.pattern_addr = base + (sprite_line & 0x7) + (sprite_line & 0x8) * 2;
        } else if m == 5 {
            let v = self.internal_read(self.pattern_addr, cartridge);
            self.pattern = v as u16;
        } else if m == 7 {
            let hi = self.internal_read(self.pattern_addr + 8, cartridge);
            let p = self.pattern | ((hi as u16) << 8);
            let p = (p & 0xF00F) | ((p & 0x0F00) >> 4) | ((p & 0x00F0) << 4);
            let p = (p & 0xC3C3) | ((p & 0x3030) >> 2) | ((p & 0x0C0C) << 2);
            let p = (p & 0x9999) | ((p & 0x4444) >> 1) | ((p & 0x2222) << 1);
            self.pattern = p;
            if !tile_fetch && self.sp_render_idx < self.sp_out_idx {
                let i = self.sp_render_idx;
                let mut sp = self.render_oam[i];
                sp.pattern = self.pattern;
                self.render_oam.set(i, sp);
                self.sp_render_idx += 1;
            }
        }
    }

    fn start_line(&mut self)
        requires
            old(self)@.wf(),
        ensures
            final(self)@ == old(self)@.line_started(),
            final(self)@.wf(),
    {
        if self.x == 0 {
            self.sp_in_idx = 0;
            self.sp_out_idx = 0;
            if self.mask.show_sprites {
                self.oam_addr = 0;
            }
        }
    }

    #[verifier::rlimit(30)]
    fn reload_scroll(&mut self)
        requires
            old(self)@.wf(),
        ensures
            final(self)@ == old(self)@.scroll_reloaded(),
            final(self)@.wf(),
    {
        proof {
            lemma_scroll_readers(self.scroll.data);
        }
        if self.mask.show_bg {
            if self.x == 304 && self.scanline == -1 {
                let a = self.scroll.addr();
                self.vaddr.set_addr(a);
            } else if self.x == 256 {
                let xc = self.scroll.x_coarse();
                self.vaddr.set_x_coarse(xc);
                let h = self.scroll.base_nametable_h();
                self.vaddr.set_base_nametable_h(h);
                self.sp_render_idx = 0;
            }
        }
    }

    #[verifier::rlimit(30)]
    fn step_y(&mut self)
        requires
            old(self)@.wf(),
        ensures
            final(self)@ == old(self)@.y_stepped(),
            final(self)@.wf(),
    {
        if self.x == 251 && !self.vaddr.inc_y() && self.vaddr.y_coarse() == 30 {
            proof {
                lemma_scroll_readers(self.vaddr.data);
            }
            let v = 1 - self.vaddr.base_nametable_v();
            self.vaddr.set_y_coarse(0);
            self.vaddr.set_base_nametable_v(v);
        }
    }

    #[verifier::rlimit(30)]
    fn evaluate_sprites(&mut self)
        requires
            old(self)@.wf(),
        ensures
            final(self)@ == old(self)@.sprites_evaluated(),
            final(self)@.wf(),
    {
        proof {
            reveal(PpuView::sprites_evaluated);
            lemma_small_bits();
        }
        let sprite_store_cycle = self.x >= 64 && self.x < 256 && self.x % 2 != 0;
        if sprite_store_cycle {
            let sel = self.oam_addr & 0x3;
            if sel == 0 {
                self.examine_sprite_y();
            } else {
                self.examine_sprite_rest(sel);
            }
        } else {
            self.sprite_data = self.oam[self.oam_addr as usize];
        }
    }

    #[verifier::rlimit(30)]
    fn examine_sprite_y(&mut self)
        requires
            old(self)@.wf(),
        ensures
            final(self)@ == old(self)@.sprite_y_examined(),
            final(self)@.wf(),
    {
        self.oam_addr = self.oam_addr.wrapping_add(1);
        if self.sp_in_idx >= 64 {
            self.oam_addr = 0;
        } else {
            self.sp_in_idx += 1;
            if self.sp_out_idx < 8 {
                let o = self.sp_out_idx;
                let mut sp = self.prefetch_oam[o];
                sp.y_pos = self.sprite_data;
                sp.sprite_idx = self.oam_addr / 4;
                self.prefetch_oam.set(o, sp);
                let y_start = self.sprite_data as isize;
                let y_end = self.sprite_data.wrapping_add(self.ctrl.sprite_size) as isize;
                if self.scanline < y_start || self.scanline >= y_end {
                    self.oam_addr = self.oam_addr.wrapping_add(3);
                    if self.sp_in_idx == 2 {
                        self.oam_addr = 8;
                    }
                }
            }
        }
    }

    #[verifier::rlimit(100)]
    fn examine_sprite_rest(&mut self, sel: u8)
        requires
            old(self)@.wf(),
            1 <= sel <= 3,
        ensures
            final(self)@ == old(self)@.sprite_rest_examined(sel),
            final(self)@.wf(),
    {
        self.oam_addr = self.oam_addr.wrapping_add(1);
        if sel == 1 {
            if self.sp_out_idx < 8 {
                let o = self.sp_out_idx;
                let mut sp = self.prefetch_oam[o];
                sp.tile_idx = self.sprite_data;
                self.prefetch_oam.set(o, sp);
            }
        } else if sel == 2 {
            if self.sp_out_idx < 8 {
                let o = self.sp_out_idx;
                let mut sp = self.prefetch_oam[o];
                sp.attributes = self.sprite_data;
                self.prefetch_oam.set(o, sp);
            }
        } else {
            if self.sp_out_idx < 8 {
                let o = self.sp_out_idx;
                let mut sp = self.prefetch_oam[o];
                sp.x_pos = self.sprite_data;
                self.prefetch_oam.set(o, sp);
                self.sp_out_idx += 1;
            } else {
                self.status.sprite_overflow = true;
            }
            if self.sp_in_idx == 2 {
                self.oam_addr = 8;
            }
        }
    }

    #[verifier::spinoff_prover]
    #[verifier::rlimit(40)]
    fn draw_pixel(&mut self)
        requires
            old(self)@.wf(),
            0 <= old(self)@.scanline < RENDER_LINES,
            old(self)@.x < 256,
        ensures
            final(self)@ == old(self)@.pixel_drawn(),
            final(self)@.wf(),
    {
        proof {
            reveal(PpuView::pixel_drawn);
        }
        let draw_bg = self.mask.show_bg && (self.mask.show_left_bg || self.x > 8);
        let draw_sp = self.mask.show_sprites && (self.mask.show_left_sp || self.x > 8);
        let mut pixel: u8 = 0;
        let mut attribute: u8 = 0;
        if draw_bg {
            let (p, a) = self.bg_pixel();
            pixel = p;
            attribute = a;
        }
        if draw_sp {
            match self.sprite_pixel(pixel) {
                Some(sprite_pixel) => {
                    if !sprite_pixel.0 || pixel == 0 {
                        pixel = sprite_pixel.1;
                        attribute = sprite_pixel.2;
                    }
                },
                None => {},
            }
        }
        let palette_idx = (attribute * 4 + pixel) as usize;
        let greyscale_mask: u8 = if self.mask.greyscale { 0x30 } else { 0x3F };
        let color = self.palette[palette_idx] & greyscale_mask;
        let idx = self.scanline as usize * 256 + self.x;
        self.frame.set(idx, color);
    }

    #[verifier::rlimit(30)]
    fn bg_pixel(&self) -> (r: (u8, u8))
        requires
            self@.wf(),
        ensures
            r == self@.bg_pixel(),
            r.0 <= 3,
            r.1 <= 3,
    {
        proof {
            lemma_render_bits();
            lemma_small_bits();
            lemma_scroll_readers(self.scroll.data);
        }
        let fine_x = (self.x & 0x7) as u8;
        let tile_x = (fine_x + self.scroll.x_fine() + 8 * (if fine_x != 0 { 1u8 } else { 0u8 })) & 0xF;
        let shift = (0xF - tile_x) * 2;
        let pixel = ((self.bg_pattern_shift >> shift) & 0x3) as u8;
        let attribute = if pixel > 0 {
            ((self.bg_attr_shift >> shift) & 0x3) as u8
        } else {
            0
        };
        (pixel, attribute)
    }

    #[verifier::rlimit(30)]
    fn sprite_color(&self, i: usize) -> (r: u16)
        requires
            self@.wf(),
            i < 8,
        ensures
            r == self@.sprite_color(i as int),
            r <= 3,
    {
        proof {
            lemma_render_bits();
        }
        let sprite = self.render_oam[i];
        let offset = (self.x as u16).wrapping_sub(sprite.x_pos as u16);
        if offset >= 8 {
            0
        } else {
            let o = if sprite.attributes & 0x40 == 0 { 7 - offset } else { offset };
            (sprite.pattern >> (o * 2)) & 0x3
        }
    }

    /// The first opaque sprite at the current x; records a sprite-0 hit over an opaque
    /// background pixel.
    #[verifier::rlimit(30)]
    fn sprite_pixel(&mut self, pixel: u8) -> (r: Option<(bool, u8, u8)>)
        requires
            old(self)@.wf(),
        ensures
            r == old(self)@.sprite_pixel_value(),
            final(self)@ == (if old(self)@.sprite0_hits(pixel) {
                PpuView { status: StatusReg { sprite0_hit: true, ..old(self)@.status }, ..old(self)@ }
            } else {
                old(self)@
            }),
            r matches Some(t) ==> t.1 <= 3 && t.2 <= 7,
    {
        let mut i: usize = 0;
        while i < self.sp_render_idx && i < 8
            invariant
                self@.wf(),
                *self == *old(self),
                i <= 8,
                old(self)@.first_opaque_sprite(0) == old(self)@.first_opaque_sprite(i as int),
            decreases 8 - i,
        {
            let c = self.sprite_color(i);
            if c != 0 {
                let sprite = self.render_oam[i];
                if pixel > 0 && sprite.sprite_idx == 0 {
                    self.status.sprite0_hit = true;
                }
                proof {
                    lemma_render_bits();
                }
                return Some((sprite.attributes & 0x20 != 0, c as u8, (sprite.attributes & 3) + 4));
            }
            i += 1;
        }
        None
    }

    /// Reads a PPU port (the ports repeat every 8 bytes; unknown ones read 0).
    pub fn read(&mut self, addr: u16, cartridge: &mut Cartridge) -> (r: u8)
        requires
            old(self)@.wf(),
            (addr & PPU_BUS_MIRROR_MASK) == REG_DATA ==> old(cartridge)@.ppu_ready(),
            old(self)@.port_ok(addr),
        ensures
            final(cartridge)@ == old(cartridge)@,
            r == old(self)@.read_value(old(cartridge)@, addr),
            final(self)@ == old(self)@.after_read(old(cartridge)@, addr),
            final(self)@.wf(),
    {
        let addr = addr & PPU_BUS_MIRROR_MASK;
        if addr == REG_STATUS {
            self.scroll.reset_latch();
            let old_status = u8::from(self.status);
            self.status.vblank = false;
            old_status
        } else if addr == REG_OAM_DATA {
            self.oam_read()
        } else if addr == REG_DATA {
            self.data_read(cartridge)
        } else {
            0
        }
    }

    /// Writes a PPU port (the ports repeat every 8 bytes; unknown ones are ignored).
    pub fn write(&mut self, addr: u16, data: u8, cartridge: &mut Cartridge)
        requires
            old(self)@.wf(),
            (addr & PPU_BUS_MIRROR_MASK) == REG_DATA ==> old(cartridge)@.ppu_ready(),
            old(self)@.port_ok(addr),
        ensures
            final(cartridge)@ == old(self)@.cart_after_write(old(cartridge)@, addr, data),
            final(self)@ == old(self)@.after_write(old(cartridge)@, addr, data),
            final(self)@.wf(),
    {
        let addr = addr & PPU_BUS_MIRROR_MASK;
        if addr == REG_CONTROLLER {
            self.ctrl = ControllerReg::from(data);
            proof {
                lemma_controller_wf(data);
            }
            self.scroll.set_base_nametable(self.ctrl.nametable);
        } else if addr == REG_MASK {
            self.mask = MaskReg::from(data);
        } else if addr == REG_OAM_ADDR {
            self.oam_addr = data;
        } else if addr == REG_OAM_DATA {
            self.oam_write(data);
        } else if addr == REG_SCROLL {
            self.scroll.write_scroll(data);
        } else if addr == REG_ADDR {
            self.scroll.write_addr(data);
            if !self.scroll.offset {
                proof {
                    lemma_scroll_readers(self.scroll.data);
                }
                let a = self.scroll.addr();
                self.vaddr.set_addr(a);
            }
        } else if addr == REG_DATA {
            self.data_write(data, cartridge);
        }
    }

    #[verifier::rlimit(30)]
    fn data_read(&mut self, cartridge: &mut Cartridge) -> (r: u8)
        requires
            old(self)@.wf(),
            old(cartridge)@.ppu_ready(),
            old(self)@.vaddr.spec_addr() < 0x4000,
        ensures
            final(cartridge)@ == old(cartridge)@,
            r == old(self)@.data_value(old(cartridge)@),
            final(self)@ == old(self)@.after_data_read(old(cartridge)@),
            final(self)@.wf(),
    {
        let addr = self.vaddr.addr();
        self.vaddr.increment(self.ctrl.increment);
        let old_buf = self.read_buf;
        if addr <= 0x1FFF {
            proof {
                cartridge@.lemma_chr_complete_accessible(addr);
            }
            self.read_buf = cartridge.read_ppu(addr);
            old_buf
        } else if addr <= 0x3EFF {
            let i = cartridge.mirror_vram_addr(addr);
            self.read_buf = self.vram[i];
            old_buf
        } else {
            let i = cartridge.mirror_vram_addr(addr);
            self.read_buf = self.vram[i];
            self.palette[palette_idx(addr)]
        }
    }

    #[verifier::rlimit(40)]
    fn data_write(&mut self, data: u8, cartridge: &mut Cartridge)
        requires
            old(self)@.wf(),
            old(cartridge)@.ppu_ready(),
            old(self)@.vaddr.spec_addr() < 0x4000,
        ensures
            final(cartridge)@ == (if old(self)@.vaddr.spec_addr() <= 0x1FFF {
                old(cartridge)@.after_ppu_write(old(self)@.vaddr.spec_addr(), data)
            } else {
                old(cartridge)@
            }),
            final(self)@ == old(self)@.after_data_write(old(cartridge)@, data),
            final(self)@.wf(),
    {
        let addr = self.vaddr.addr();
        self.vaddr.increment(self.ctrl.increment);
        if addr <= 0x1FFF {
            proof {
                cartridge@.lemma_chr_complete_accessible(addr);
            }
            cartridge.write_ppu(addr, data);
        } else if addr <= 0x3EFF {
            let i = cartridge.mirror_vram_addr(addr);
            self.vram.set(i, data);
        } else {
            self.palette.set(palette_idx(addr), data);
        }
    }

    fn oam_read(&mut self) -> (r: u8)
        requires
            old(self)@.wf(),
        ensures
            r == old(self)@.oam_value(),
            *final(self) == *old(self),
    {
        let addr = self.oam_addr;
        if addr % 4 == 2 {
            return self.oam[addr as usize] & 0xE3;
        }
        self.oam[addr as usize]
    }

    fn oam_write(&mut self, data: u8)
        requires
            old(self)@.wf(),
        ensures
            final(self)@ == (PpuView {
                oam: old(self)@.oam.update(old(self)@.oam_addr as int, data),
                oam_addr: old(self)@.oam_addr.wrapping_add(1),
                ..old(self)@
            }),
            final(self)@.wf(),
    {
        self.oam.set(self.oam_addr as usize, data);
        self.oam_addr = self.oam_addr.wrapping_add(1);
    }
}

pub fn palette_idx(addr: u16) -> (r: usize)
    ensures
        r == palette_index(addr),
        r < 32,
{
    proof {
        lemma_small_bits();
    }
    if addr >= 0x3f10 && addr % 4 == 0 {
        0
    } else {
        (addr & 0x001f) as usize
    }
}

/// Two writes of the address port, high byte first, set the data-port address to the
/// fourteen-bit address they spell, leave the write latch at the high byte again, and
/// leave the cartridge alone.
pub proof fn lemma_address_port(s: PpuView, cart: CartridgeView, hi: u8, lo: u8)
    requires
        s.wf(),
        !s.scroll.offset,
    ensures
        s.cart_after_write(cart, REG_ADDR, hi) == cart,
        s.after_write(cart, REG_ADDR, hi).cart_after_write(cart, REG_ADDR, lo) == cart,
        s.after_write(cart, REG_ADDR, hi).after_write(cart, REG_ADDR, lo).wf(),
        s.after_write(cart, REG_ADDR, hi).after_write(cart, REG_ADDR, lo).vaddr.spec_addr() == (hi
            & 0x3F) as u16 * 256 + lo as u16,
        !s.after_write(cart, REG_ADDR, hi).after_write(cart, REG_ADDR, lo).scroll.offset,
{
    lemma_masks();
    lemma_addr_halves(s.scroll.data, hi, lo);
    let s1 = s.after_write(cart, REG_ADDR, hi);
    assert(s1.scroll.data == s.scroll.with_addr_hi(hi & 0x3F).data);
    let s2 = s1.after_write(cart, REG_ADDR, lo);
    assert(s2.scroll.data == s1.scroll.with_addr_lo(lo).data);
    let a = s2.scroll.spec_addr();
    assert(a == (hi & 0x3F) as u16 * 256 + lo as u16);
    lemma_scroll_writers(s.vaddr.data, a as u32);
}

/// A byte written through the data port to a nametable address is read back through
/// the data port: once the address is set again, the first read fills the read buffer
/// with the byte, and the second read returns it (unless the port has stepped into
/// palette memory by then). The cartridge is not touched.
pub proof fn lemma_data_round_trip(s: PpuView, cart: CartridgeView, d: u8)
    requires
        s.wf(),
        !s.scroll.offset,
        0x2000 <= s.vaddr.spec_addr() <= 0x3EFF,
    ensures
        s.cart_after_write(cart, REG_DATA, d) == cart,
        ({
            let a = s.vaddr.spec_addr();
            let t = s.after_write(cart, REG_DATA, d).after_write(cart, REG_ADDR, (a / 256) as u8).after_write(
                cart,
                REG_ADDR,
                (a % 256) as u8,
            );
            &&& t.vaddr.spec_addr() == a
            &&& t.after_read(cart, REG_DATA).read_buf == d
            &&& t.after_read(cart, REG_DATA).vaddr.spec_addr() < 0x3F00 ==> t.after_read(
                cart,
                REG_DATA,
            ).read_value(cart, REG_DATA) == d
        }),
{
    lemma_masks();
    lemma_scroll_readers(s.vaddr.data);
    let a = s.vaddr.spec_addr();
    let s1 = s.after_write(cart, REG_DATA, d);
    assert(s1 == s.after_data_write(cart, d));
    lemma_scroll_writers(s.vaddr.data, ((s.vaddr.spec_addr() + s.ctrl.increment) as u16 & 0x3fff) as u32);
    lemma_small_masks();
    assert(s1.wf());
    let hi = (a / 256) as u8;
    let lo = (a % 256) as u8;
    lemma_address_port(s1, cart, hi, lo);
    lemma_addr_halves(s1.scroll.data, hi, lo);
    assert(hi < 0x40);
    let t = s1.after_write(cart, REG_ADDR, hi).after_write(cart, REG_ADDR, lo);
    assert(t.vaddr.spec_addr() == a);
    assert(cart.vram_index(a) < 0x800);
    assert(t.vram == s.vram.update(cart.vram_index(a) as int, d));
}

/// With rendering off, a PPU clock leaves sprite memory, its address and the mask alone.
pub proof fn lemma_idle_tick_keeps_oam(s: PpuView, cart: CartridgeView)
    requires
        !s.mask.show_bg,
        !s.mask.show_sprites,
    ensures
        s.ticked(cart).oam == s.oam,
        s.ticked(cart).oam_addr == s.oam_addr,
        s.ticked(cart).mask == s.mask,
{
    reveal(PpuView::ticked);
    reveal(PpuView::pixel_drawn);
}

/// A write of the sprite-memory data port stores the byte at the sprite-memory address,
/// moves the address on, and leaves the cartridge alone.
pub proof fn lemma_oam_port_write(s: PpuView, cart: CartridgeView, v: u8)
    ensures
        s.after_write(cart, REG_OAM_DATA, v) == (PpuView {
            oam: s.oam.update(s.oam_addr as int, v),
            oam_addr: s.oam_addr.wrapping_add(1),
            ..s
        }),
        s.cart_after_write(cart, REG_OAM_DATA, v) == cart,
{
    lemma_masks();
}

/// The PPU after `n` clocks with cartridge `cart`.
pub open spec fn ticked_times(p: PpuView, cart: CartridgeView, n: nat) -> PpuView
    decreases n,
{
    if n == 0 {
        p
    } else {
        ticked_times(p, cart, (n - 1) as nat).ticked(cart)
    }
}

/// Number of PPU clocks in a frame: 262 lines of 341 dots.
pub open spec fn frame_clocks() -> int {
    262 * 341int
}

/// Place of the beam within the frame, counting from the first dot of the pre-render
/// line.
pub open spec fn beam_position(p: PpuView) -> int {
    (p.scanline + 1) * 341 + p.x
}

/// One clock moves the beam one dot on, wrapping at the end of the frame.
proof fn lemma_beam_step(p: PpuView, cart: CartridgeView)
    requires
        -1 <= p.scanline <= 260,
        p.x < 341,
    ensures
        -1 <= p.ticked(cart).scanline <= 260,
        p.ticked(cart).x < 341,
        beam_position(p.ticked(cart)) == (beam_position(p) + 1) % frame_clocks(),
        p.tick_starts_vblank() <==> beam_position(p) == 242 * 341 - 1,
{
    reveal(PpuView::ticked);
    let s0 = PpuView {
        cycle: p.cycle.wrapping_add(1),
        nmi_up: p.status.vblank && p.ctrl.generate_nmi,
        ..p
    };
    s0.lemma_render_keeps_position(cart);
    let s1 = if s0.scanline < RENDER_LINES && (s0.mask.show_bg || s0.mask.show_sprites) {
        s0.render_ticked(cart)
    } else {
        s0
    };
    s1.lemma_render_keeps_position(cart);
    let s2 = if s1.scanline < RENDER_LINES && s1.scanline >= 0 && s1.x < 256 {
        s1.pixel_drawn()
    } else {
        s1
    };
    assert(s2.x == p.x && s2.scanline == p.scanline);
    assert(p.ticked(cart) == s2.beam_advanced());
    let a = beam_position(p) + 1;
    if a < frame_clocks() {
        vstd::arithmetic::div_mod::lemma_small_mod(a as nat, frame_clocks() as nat);
    } else {
        vstd::arithmetic::div_mod::lemma_mod_self_0(frame_clocks());
    }
}

/// After `n` clocks the beam has moved `n` dots on, wrapping at the end of the frame.
proof fn lemma_beam_run(p: PpuView, cart: CartridgeView, n: nat)
    requires
        -1 <= p.scanline <= 260,
        p.x < 341,
    ensures
        -1 <= ticked_times(p, cart, n).scanline <= 260,
        ticked_times(p, cart, n).x < 341,
        beam_position(ticked_times(p, cart, n)) == (beam_position(p) + n) % frame_clocks(),
    decreases n,
{
    if n > 0 {
        lemma_beam_run(p, cart, (n - 1) as nat);
        let q = ticked_times(p, cart, (n - 1) as nat);
        lemma_beam_step(q, cart);
        let a = beam_position(p) + n - 1;
        assert(((a % frame_clocks()) + 1) % frame_clocks() == (a + 1) % frame_clocks()) by {
            vstd::arithmetic::div_mod::lemma_add_mod_noop(a, 1, frame_clocks());
            vstd::arithmetic::div_mod::lemma_small_mod(1, frame_clocks() as nat);
            vstd::arithmetic::div_mod::lemma_mod_twice(a, frame_clocks());
        }
    } else {
        vstd::arithmetic::div_mod::lemma_small_mod(beam_position(p) as nat, frame_clocks() as nat);
    }
}

/// Vertical blank comes at a fixed rate: from power-on, the clock numbered
/// 241 * 341 (counting from 1) is the first to report the start of vertical blank, and
/// from then on every 262 * 341-th clock reports it again, whatever is shown.
pub proof fn lemma_vblank_period(cart: CartridgeView, k: nat)
    requires
        k >= 1,
    ensures
        ticked_times(Ppu::initial(), cart, (k - 1) as nat).tick_starts_vblank() <==> (k >= 241 * 341
            && (k - 241 * 341) % frame_clocks() == 0),
{
    let p = Ppu::initial();
    lemma_beam_run(p, cart, (k - 1) as nat);
    let q = ticked_times(p, cart, (k - 1) as nat);
    lemma_beam_step(q, cart);
    assert(beam_position(p) == 341);
    let n = k - 1;
    // the beam is at (341 + k - 1) % P; vertical blank starts at 242 * 341 - 1
    assert((341 + n) % frame_clocks() == 242 * 341 - 1 <==> (k >= 241 * 341 && (k - 241 * 341)
        % frame_clocks() == 0)) by {
        if k >= 241 * 341 {
            vstd::arithmetic::div_mod::lemma_add_mod_noop((k - 241 * 341) as int, 242 * 341 - 1, frame_clocks());
            vstd::arithmetic::div_mod::lemma_small_mod((242 * 341 - 1) as nat, frame_clocks() as nat);
            vstd::arithmetic::div_mod::lemma_mod_bound((k - 241 * 341) as int, frame_clocks());
            vstd::arithmetic::div_mod::lemma_mod_bound((341 + n) as int, frame_clocks());
        } else {
            vstd::arithmetic::div_mod::lemma_small_mod((341 + n) as nat, frame_clocks() as nat);
        }
    }
}

/// Sprite priority. Where sprites are drawn and sprite `i` is the first sprite opaque at
/// the current dot: with its priority bit (0x20) clear it is in front, so its colour and
/// one of the sprite palettes 4-7 are drawn whatever the background holds; with the bit
/// set it is drawn only where the background is transparent (or not drawn). Where no
/// sprite is opaque, or sprites are not drawn, the background shows. The colour written
/// to the picture is the chosen palette entry.
pub proof fn lemma_sprite_priority(s: PpuView, i: int)
    requires
        s.wf(),
        0 <= s.scanline < RENDER_LINES,
        s.x < 256,
    ensures
        ({
            let draw_bg = s.mask.show_bg && (s.mask.show_left_bg || s.x > 8);
            let draw_sp = s.mask.show_sprites && (s.mask.show_left_sp || s.x > 8);
            let bg = if draw_bg { s.bg_pixel() } else { (0u8, 0u8) };
            let sprite = s.render_oam[i];
            let in_sprite = (s.sprite_color(i) as u8, ((sprite.attributes & 3) + 4) as u8);
            &&& draw_sp && s.first_opaque_sprite(0) == Some(i) ==> s.sprite_color(i) != 0
            &&& draw_sp && s.first_opaque_sprite(0) == Some(i) && sprite.attributes & 0x20 == 0
                ==> s.pixel_choice() == in_sprite
            &&& draw_sp && s.first_opaque_sprite(0) == Some(i) && sprite.attributes & 0x20 != 0
                && bg.0 != 0 ==> s.pixel_choice() == bg
            &&& draw_sp && s.first_opaque_sprite(0) == Some(i) && sprite.attributes & 0x20 != 0
                && bg.0 == 0 ==> s.pixel_choice() == in_sprite
            &&& (!draw_sp || s.first_opaque_sprite(0) is None) ==> s.pixel_choice() == bg
            &&& s.pixel_drawn().frame[s.scanline * 256 + s.x] == s.palette[(s.pixel_choice().1 * 4
                + s.pixel_choice().0) as int] & (if s.mask.greyscale { 0x30u8 } else { 0x3Fu8 })
        }),
{
    reveal(PpuView::pixel_drawn);
    if s.first_opaque_sprite(0) == Some(i) {
        lemma_first_opaque(s, 0, i);
    }
}

/// The first opaque sprite found from `k` on is opaque.
proof fn lemma_first_opaque(s: PpuView, k: int, i: int)
    requires
        s.first_opaque_sprite(k) == Some(i),
    ensures
        s.sprite_color(i) != 0,
    decreases 8 - k,
{
    if !(k >= s.sp_render_idx || k >= 8 || k < 0) && s.sprite_color(k) == 0 {
        lemma_first_opaque(s, k + 1, i);
    }
}

/// Small masks used by the PPU.
pub proof fn lemma_small_bits()
    by (bit_vector)
    ensures
        forall|v: u16| #[trigger] (v & 0x001f) < 32,
        forall|v: u8| #[trigger] (v & 0x3) < 4,
        forall|v: u8| #[trigger] (v & 0xF) < 16,
{
}

/// Decoded control registers respect their field ranges.
pub proof fn lemma_controller_wf(data: u8)
    ensures
        controller_reg_of(data).wf(),
{
    assert(((data as u16) & 0x3) <= 3 && (((data as u16) >> 3) & 0x1) <= 1 && (((data as u16) >> 4) & 0x1) <= 1) by (bit_vector);
}

} // verus!
