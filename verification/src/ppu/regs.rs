use vstd::prelude::*;
use crate::bits::lemma_masks;
use crate::console::ppu::regs::{lemma_scroll_readers, lemma_small_masks};

pub use crate::console::ppu::regs::ScrollReg;

verus! {

/// The PPU address register as two bytes: six high bits and a low byte, written high
/// byte first.
pub struct AddrReg {
    msb: u8,
    lsb: u8,
    on_msb: bool,
}

/// Abstract state of an [`AddrReg`]: high byte, low byte, whether the next write goes to
/// the high byte.
pub struct AddrRegView {
    pub msb: u8,
    pub lsb: u8,
    pub on_msb: bool,
}

impl View for AddrReg {
    type V = AddrRegView;

    closed spec fn view(&self) -> AddrRegView {
        AddrRegView { msb: self.msb, lsb: self.lsb, on_msb: self.on_msb }
    }
}

impl AddrRegView {
    /// The high byte never exceeds six bits.
    pub open spec fn wf(self) -> bool {
        self.msb < 0x40
    }

    /// The 14-bit address held.
    pub open spec fn value(self) -> u16 {
        (self.msb as u16 * 256 + self.lsb as u16) as u16
    }
}

impl AddrReg {
    pub fn new() -> (r: Self)
        ensures
            r@ == (AddrRegView { msb: 0, lsb: 0, on_msb: true }),
            r@.wf(),
    {
        AddrReg { msb: 0, lsb: 0, on_msb: true }
    }

    /// Writes the high six bits, or the low byte, whichever is next.
    pub fn write(&mut self, data: u8)
        requires
            old(self)@.wf(),
        ensures
            final(self)@ == (if old(self)@.on_msb {
                AddrRegView { msb: data & 0x3F, on_msb: false, ..old(self)@ }
            } else {
                AddrRegView { lsb: data, on_msb: true, ..old(self)@ }
            }),
            final(self)@.wf(),
    {
        if self.on_msb {
            proof {
                lemma_masks();
            }
            self.msb = data & 0x3F;
        } else {
            self.lsb = data;
        }
        self.on_msb = !self.on_msb;
    }

    /// Adds `inc` to the address; a carry out of the low byte goes to the high bits,
    /// modulo 64.
    pub fn increment(&mut self, inc: u8)
        requires
            old(self)@.wf(),
        ensures
            final(self)@.value() as int == (old(self)@.value() + inc) % 0x4000,
            final(self)@.on_msb == old(self)@.on_msb,
            final(self)@.wf(),
    {
        let old_lsb = self.lsb;
        self.lsb = old_lsb.wrapping_add(inc);
        if self.lsb < old_lsb {
            let m = self.msb;
            proof {
                assert(m < 0x40 ==> (m.wrapping_add(1) & 0x3F) as int == (m + 1) % 0x40) by (bit_vector);
            }
            self.msb = self.msb.wrapping_add(1) & 0x3F;
        }
    }

    pub fn get(&self) -> (r: u16)
        ensures
            r == self@.value(),
    {
        let (m, l) = (self.msb, self.lsb);
        proof {
            assert(((m as u16) << 8u16) | (l as u16) == ((m as u16) * 256 + l as u16) as u16) by (bit_vector);
        }
        (self.msb as u16) << 8 | (self.lsb as u16)
    }

    pub fn reset_latch(&mut self)
        ensures
            final(self)@ == (AddrRegView { on_msb: true, ..old(self)@ }),
    {
        self.on_msb = true;
    }
}

/// The PPU control register (0x2000) as a raw byte.
#[derive(Clone, Copy, PartialEq, Eq, Structural)]
pub struct ControllerReg(pub u8);

impl ControllerReg {
    /// Pattern table of the background (bit 4), as a table number.
    pub open spec fn spec_bg_half(self) -> u16 {
        ((self.0 >> 4u8) & 1) as u16
    }

    /// Pattern table of 8x8 sprites (bit 3), as a table number.
    pub open spec fn spec_sprite_half(self) -> u16 {
        ((self.0 >> 3u8) & 1) as u16
    }

    /// Sprite height in pixels (bit 5).
    pub open spec fn spec_sprite_size(self) -> u8 {
        if self.0 & 0x20 != 0 { 16 } else { 8 }
    }

    pub open spec fn spec_generate_nmi(self) -> bool {
        self.0 & 0x80 != 0
    }

    pub fn new() -> (r: Self)
        ensures
            r.0 == 0,
    {
        ControllerReg(0)
    }

    /// Base nametable, bits 0-1.
    pub fn nametable(&self) -> (r: u8)
        ensures
            r == self.0 & 0x3,
    {
        self.0 & 0x3
    }

    /// Bit 2: the data port steps by 32 rather than 1.
    pub fn increment(&self) -> (r: bool)
        ensures
            r == (self.0 & 0x04 != 0),
    {
        self.0 & 0x04 != 0
    }

    /// Bit 3: the pattern table of 8x8 sprites.
    pub fn sprite_half(&self) -> (r: usize)
        ensures
            r == (self.0 >> 3u8) & 1,
            r == self.spec_sprite_half(),
            r <= 1,
    {
        proof {
            lemma_ctrl_fields(self.0);
        }
        ((self.0 >> 3u8) & 1) as usize
    }

    /// Bit 4: the pattern table of the background.
    pub fn bg_half(&self) -> (r: usize)
        ensures
            r == (self.0 >> 4u8) & 1,
            r == self.spec_bg_half(),
            r <= 1,
    {
        proof {
            lemma_ctrl_fields(self.0);
        }
        ((self.0 >> 4u8) & 1) as usize
    }

    /// Bit 5: sprites are 8x16.
    pub fn sprite_size(&self) -> (r: bool)
        ensures
            r == (self.0 & 0x20 != 0),
    {
        self.0 & 0x20 != 0
    }

    /// Bit 6: PPU master/slave select.
    pub fn ppu_master(&self) -> (r: bool)
        ensures
            r == (self.0 & 0x40 != 0),
    {
        self.0 & 0x40 != 0
    }

    /// Bit 7: raise an NMI at the start of vertical blank.
    pub fn generate_nmi(&self) -> (r: bool)
        ensures
            r == (self.0 & 0x80 != 0),
    {
        self.0 & 0x80 != 0
    }

    /// How far the data port moves after each access.
    pub fn get_increment(&self) -> (r: u8)
        ensures
            r == (if self.0 & 0x04 != 0 { 32u8 } else { 1u8 }),
    {
        if self.increment() {
            32
        } else {
            1
        }
    }

    /// Sprite height in pixels.
    pub fn act_sprite_size(&self) -> (r: u8)
        ensures
            r == (if self.0 & 0x20 != 0 { 16u8 } else { 8u8 }),
    {
        if self.sprite_size() {
            16
        } else {
            8
        }
    }
}

/// The two pattern-table selectors of the control register are single bits.
pub proof fn lemma_ctrl_fields(c: u8)
    by (bit_vector)
    ensures
        (c >> 4u8) & 1 <= 1,
        (c >> 3u8) & 1 <= 1,
{
}

/// The PPU mask register (0x2001) as a raw byte: bit `i` is the `i`-th flag.
#[derive(Clone, Copy, PartialEq, Eq, Structural)]
pub struct MaskReg(pub u8);

impl MaskReg {
    pub open spec fn spec_greyscale(self) -> bool {
        self.0 & 0x01 != 0
    }

    pub open spec fn spec_show_left_bg(self) -> bool {
        self.0 & 0x02 != 0
    }

    pub open spec fn spec_show_left_sp(self) -> bool {
        self.0 & 0x04 != 0
    }

    pub open spec fn spec_show_bg(self) -> bool {
        self.0 & 0x08 != 0
    }

    pub open spec fn spec_show_sprites(self) -> bool {
        self.0 & 0x10 != 0
    }

    pub fn new() -> (r: Self)
        ensures
            r.0 == 0,
    {
        MaskReg(0)
    }

    pub fn greyscale(&self) -> (r: bool)
        ensures
            r == (self.0 & 0x01 != 0),
    {
        self.0 & 0x01 != 0
    }

    pub fn show_left_bg(&self) -> (r: bool)
        ensures
            r == (self.0 & 0x02 != 0),
    {
        self.0 & 0x02 != 0
    }

    pub fn show_left_sp(&self) -> (r: bool)
        ensures
            r == (self.0 & 0x04 != 0),
    {
        self.0 & 0x04 != 0
    }

    pub fn show_bg(&self) -> (r: bool)
        ensures
            r == (self.0 & 0x08 != 0),
    {
        self.0 & 0x08 != 0
    }

    pub fn show_sprites(&self) -> (r: bool)
        ensures
            r == (self.0 & 0x10 != 0),
    {
        self.0 & 0x10 != 0
    }

    pub fn emphasize_red(&self) -> (r: bool)
        ensures
            r == (self.0 & 0x20 != 0),
    {
        self.0 & 0x20 != 0
    }

    pub fn emphasize_green(&self) -> (r: bool)
        ensures
            r == (self.0 & 0x40 != 0),
    {
        self.0 & 0x40 != 0
    }

    pub fn emphasize_blue(&self) -> (r: bool)
        ensures
            r == (self.0 & 0x80 != 0),
    {
        self.0 & 0x80 != 0
    }
}

/// The PPU status register (0x2002) as a raw byte: overflow in bit 5, sprite-0 hit in
/// bit 6, vertical blank in bit 7.
#[derive(Clone, Copy, PartialEq, Eq, Structural)]
pub struct StatusReg(pub u8);

/// `v` with bit `mask` set or cleared.
pub open spec fn with_bit(v: u8, mask: u8, b: bool) -> u8 {
    if b {
        v | mask
    } else {
        v & !mask
    }
}

impl StatusReg {
    pub open spec fn spec_vblank(self) -> bool {
        self.0 & 0x80 != 0
    }

    pub fn new() -> (r: Self)
        ensures
            r.0 == 0,
    {
        StatusReg(0)
    }

    pub fn sprite_overflow(&self) -> (r: bool)
        ensures
            r == (self.0 & 0x20 != 0),
    {
        self.0 & 0x20 != 0
    }

    pub fn sprite0_hit(&self) -> (r: bool)
        ensures
            r == (self.0 & 0x40 != 0),
    {
        self.0 & 0x40 != 0
    }

    pub fn vblank(&self) -> (r: bool)
        ensures
            r == (self.0 & 0x80 != 0),
    {
        self.0 & 0x80 != 0
    }

    pub fn set_sprite_overflow(&mut self, b: bool)
        ensures
            final(self).0 == with_bit(old(self).0, 0x20, b),
    {
        self.0 = if b { self.0 | 0x20 } else { self.0 & !0x20u8 };
    }

    pub fn set_sprite0_hit(&mut self, b: bool)
        ensures
            final(self).0 == with_bit(old(self).0, 0x40, b),
    {
        self.0 = if b { self.0 | 0x40 } else { self.0 & !0x40u8 };
    }

    pub fn set_vblank(&mut self, b: bool)
        ensures
            final(self).0 == with_bit(old(self).0, 0x80, b),
    {
        self.0 = if b { self.0 | 0x80 } else { self.0 & !0x80u8 };
    }
}

impl ScrollReg {
    /// First write sets the horizontal scroll, second the vertical one.
    pub fn write(&mut self, data: u8)
        requires
            old(self).wf(),
        ensures
            final(self).wf(),
            final(self).offset == !old(self).offset,
            final(self).data == (if old(self).offset {
                old(self).with_y(data).data
            } else {
                old(self).with_x(data).data
            }),
    {
        self.write_scroll(data);
    }

    /// Increments fine X modulo 8; returns whether it wrapped to zero.
    pub fn _inc_x_fine(&mut self) -> (wrapped: bool)
        requires
            old(self).wf(),
        ensures
            *final(self) == old(self).with_x_fine(((old(self).x_fine() + 1) as u8) & 0x7),
            final(self).wf(),
            wrapped == (final(self).x_fine() == 0),
    {
        proof {
            lemma_scroll_readers(self.data);
        }
        proof {
            lemma_masks();
        }
        self.set_x_fine((self.x_fine() + 1) & 0x7);
        self.x_fine() == 0
    }

    /// Increments coarse Y modulo 32; returns whether it wrapped to zero.
    pub fn inc_y_coarse(&mut self) -> (wrapped: bool)
        requires
            old(self).wf(),
        ensures
            *final(self) == old(self).with_y_coarse(((old(self).y_coarse() + 1) as u16) & 0x1F),
            final(self).wf(),
            wrapped == (final(self).y_coarse() == 0),
    {
        proof {
            lemma_scroll_readers(self.data);
            lemma_small_masks();
        }
        self.set_y_coarse((self.y_coarse() + 1) & 0x1F);
        self.y_coarse() == 0
    }

    /// Increments fine Y modulo 8; returns whether it wrapped to zero.
    pub fn inc_y_fine(&mut self) -> (wrapped: bool)
        requires
            old(self).wf(),
        ensures
            *final(self) == old(self).with_y_fine(((old(self).y_fine() + 1) as u8) & 0x7),
            final(self).wf(),
            wrapped == (final(self).y_fine() == 0),
    {
        proof {
            lemma_scroll_readers(self.data);
        }
        proof {
            lemma_masks();
        }
        self.set_y_fine((self.y_fine() + 1) & 0x7);
        self.y_fine() == 0
    }
}

/// Writing the high byte and then the low byte sets the whole address, the high byte
/// cut to six bits.
pub proof fn lemma_addr_reg_two_writes(r: AddrRegView, hi: u8, lo: u8)
    requires
        r.on_msb,
    ensures
        ({
            let r1 = AddrRegView { msb: hi & 0x3F, on_msb: false, ..r };
            let r2 = AddrRegView { lsb: lo, on_msb: true, ..r1 };
            r2.value() as int == (hi & 0x3F) * 256 + lo && r2.on_msb
        }),
{
    lemma_masks();
}

} // verus!
