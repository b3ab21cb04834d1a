use vstd::prelude::*;

verus! {

/// Contents of the PPU control register (0x2000), decoded into fields.
#[derive(Clone, Copy)]
pub struct ControllerReg {
    pub nametable: u16,
    pub increment: u16,
    pub sprite_half: u16,
    pub bg_half: u16,
    pub sprite_size: u8,
    pub ppu_master: bool,
    pub generate_nmi: bool,
}

/// The decoding of a byte written to the PPU control register.
pub open spec fn controller_reg_of(data: u8) -> ControllerReg {
    ControllerReg {
        nametable: (data as u16) & 0x3,
        increment: if (data >> 2) & 0x1 == 1 { 32 } else { 1 },
        sprite_half: ((data as u16) >> 3) & 0x1,
        bg_half: ((data as u16) >> 4) & 0x1,
        sprite_size: if (data >> 5) & 0x1 == 1 { 16 } else { 8 },
        ppu_master: (data >> 6) & 0x1 == 1,
        generate_nmi: (data >> 7) & 0x1 == 1,
    }
}

impl ControllerReg {
    /// Power-on value: every field zero.
    pub open spec fn zeroed() -> ControllerReg {
        ControllerReg {
            nametable: 0,
            increment: 0,
            sprite_half: 0,
            bg_half: 0,
            sprite_size: 0,
            ppu_master: false,
            generate_nmi: false,
        }
    }

    /// Field ranges that every value built by this module respects.
    pub open spec fn wf(&self) -> bool {
        &&& self.nametable <= 3
        &&& (self.increment == 0 || self.increment == 1 || self.increment == 32)
        &&& self.sprite_half <= 1
        &&& self.bg_half <= 1
        &&& (self.sprite_size == 0 || self.sprite_size == 8 || self.sprite_size == 16)
    }

    pub fn new_zeroed() -> (r: ControllerReg)
        ensures
            r == ControllerReg::zeroed(),
            r.wf(),
    {
        ControllerReg {
            nametable: 0,
            increment: 0,
            sprite_half: 0,
            bg_half: 0,
            sprite_size: 0,
            ppu_master: false,
            generate_nmi: false,
        }
    }
}

impl Default for ControllerReg {
    fn default() -> (r: ControllerReg)
        ensures
            r == ControllerReg::zeroed(),
    {
        ControllerReg::new_zeroed()
    }
}

impl From<u8> for ControllerReg {
    fn from(data: u8) -> (r: ControllerReg) {
        ControllerReg {
            nametable: (data as u16) & 0x3,
            increment: if (data >> 2) & 0x1 == 1 { 32 } else { 1 },
            sprite_half: ((data as u16) >> 3) & 0x1,
            bg_half: ((data as u16) >> 4) & 0x1,
            sprite_size: if (data >> 5) & 0x1 == 1 { 16 } else { 8 },
            ppu_master: (data >> 6) & 0x1 == 1,
            generate_nmi: (data >> 7) & 0x1 == 1,
        }
    }
}

impl vstd::std_specs::convert::FromSpecImpl<u8> for ControllerReg {
    open spec fn obeys_from_spec() -> bool {
        true
    }

    open spec fn from_spec(data: u8) -> ControllerReg {
        controller_reg_of(data)
    }
}

/// Contents of the PPU mask register (0x2001), decoded into flags.
#[derive(Clone, Copy)]
pub struct MaskReg {
    pub greyscale: bool,
    pub show_left_bg: bool,
    pub show_left_sp: bool,
    pub show_bg: bool,
    pub show_sprites: bool,
    pub emphasize_red: bool,
    pub emphasize_green: bool,
    pub emphasize_blue: bool,
}

/// The decoding of a byte written to the PPU mask register: bit `i` gives the `i`-th flag.
pub open spec fn mask_reg_of(data: u8) -> MaskReg {
    MaskReg {
        greyscale: (data >> 0) & 0x1 == 1,
        show_left_bg: (data >> 1) & 0x1 == 1,
        show_left_sp: (data >> 2) & 0x1 == 1,
        show_bg: (data >> 3) & 0x1 == 1,
        show_sprites: (data >> 4) & 0x1 == 1,
        emphasize_red: (data >> 5) & 0x1 == 1,
        emphasize_green: (data >> 6) & 0x1 == 1,
        emphasize_blue: (data >> 7) & 0x1 == 1,
    }
}

impl MaskReg {
    pub open spec fn cleared() -> MaskReg {
        MaskReg {
            greyscale: false,
            show_left_bg: false,
            show_left_sp: false,
            show_bg: false,
            show_sprites: false,
            emphasize_red: false,
            emphasize_green: false,
            emphasize_blue: false,
        }
    }

    pub fn new_cleared() -> (r: MaskReg)
        ensures
            r == MaskReg::cleared(),
    {
        MaskReg {
            greyscale: false,
            show_left_bg: false,
            show_left_sp: false,
            show_bg: false,
            show_sprites: false,
            emphasize_red: false,
            emphasize_green: false,
            emphasize_blue: false,
        }
    }
}

impl Default for MaskReg {
    fn default() -> (r: MaskReg)
        ensures
            r == MaskReg::cleared(),
    {
        MaskReg::new_cleared()
    }
}

impl From<u8> for MaskReg {
    fn from(data: u8) -> (r: MaskReg) {
        MaskReg {
            greyscale: (data >> 0) & 0x1 == 1,
            show_left_bg: (data >> 1) & 0x1 == 1,
            show_left_sp: (data >> 2) & 0x1 == 1,
            show_bg: (data >> 3) & 0x1 == 1,
            show_sprites: (data >> 4) & 0x1 == 1,
            emphasize_red: (data >> 5) & 0x1 == 1,
            emphasize_green: (data >> 6) & 0x1 == 1,
            emphasize_blue: (data >> 7) & 0x1 == 1,
        }
    }
}

impl vstd::std_specs::convert::FromSpecImpl<u8> for MaskReg {
    open spec fn obeys_from_spec() -> bool {
        true
    }

    open spec fn from_spec(data: u8) -> MaskReg {
        mask_reg_of(data)
    }
}

/// The PPU status register (0x2002) flags.
#[derive(Clone, Copy)]
pub struct StatusReg {
    pub sprite_overflow: bool,
    pub sprite0_hit: bool,
    pub vblank: bool,
}

/// The byte the status register reads as: overflow in bit 5, sprite-0 hit in bit 6,
/// vertical blank in bit 7, every other bit clear.
pub open spec fn status_byte(s: StatusReg) -> u8 {
    ((if s.sprite_overflow { 1u8 } else { 0u8 }) << 5) | ((if s.sprite0_hit { 1u8 } else { 0u8 })
        << 6) | ((if s.vblank { 1u8 } else { 0u8 }) << 7)
}

impl StatusReg {
    pub open spec fn cleared() -> StatusReg {
        StatusReg { sprite_overflow: false, sprite0_hit: false, vblank: false }
    }

    pub fn new_cleared() -> (r: StatusReg)
        ensures
            r == StatusReg::cleared(),
    {
        StatusReg { sprite_overflow: false, sprite0_hit: false, vblank: false }
    }
}

impl Default for StatusReg {
    fn default() -> (r: StatusReg)
        ensures
            r == StatusReg::cleared(),
    {
        StatusReg::new_cleared()
    }
}

impl From<StatusReg> for u8 {
    fn from(v: StatusReg) -> (r: u8) {
        ((if v.sprite_overflow { 1u8 } else { 0u8 }) << 5) | ((if v.sprite0_hit { 1u8 } else { 0u8 })
            << 6) | ((if v.vblank { 1u8 } else { 0u8 }) << 7)
    }
}

impl vstd::std_specs::convert::FromSpecImpl<StatusReg> for u8 {
    open spec fn obeys_from_spec() -> bool {
        true
    }

    open spec fn from_spec(v: StatusReg) -> u8 {
        status_byte(v)
    }
}

/// The PPU's internal scroll / address register ("loopy" register).
///
/// Bit layout of `data`: bits 0-2 fine X, 3-7 coarse X, 8-12 coarse Y,
/// 13-14 base nametable, 15-17 fine Y.  `offset` is the shared write latch
/// of the scroll and address ports.
#[derive(Clone, Copy)]
pub struct ScrollReg {
    pub data: u32,
    pub offset: bool,
}

impl ScrollReg {
    /// Bits 18 and up are never set by this module.
    pub open spec fn wf(&self) -> bool {
        self.data < 0x40000
    }

    // ---- field readers (specification and executable form agree) ----

    pub open spec fn spec_addr(&self) -> u16 {
        ((self.data >> 3) & 0xFFFF) as u16
    }

    pub open spec fn spec_x_fine(&self) -> u8 {
        (self.data & 0x7) as u8
    }

    pub open spec fn spec_x_coarse(&self) -> u16 {
        ((self.data >> 3) & 0x1F) as u16
    }

    pub open spec fn spec_y_coarse(&self) -> u16 {
        ((self.data >> 8) & 0x1F) as u16
    }

    pub open spec fn spec_base_nametable(&self) -> u16 {
        ((self.data >> 13) & 0x3) as u16
    }

    pub open spec fn spec_base_nametable_h(&self) -> u8 {
        ((self.data >> 13) & 0x1) as u8
    }

    pub open spec fn spec_base_nametable_v(&self) -> u8 {
        ((self.data >> 14) & 0x1) as u8
    }

    pub open spec fn spec_y_fine(&self) -> u8 {
        ((self.data >> 15) & 0x7) as u8
    }

    pub open spec fn spec_x(&self) -> u8 {
        (self.data & 0xFF) as u8
    }

    /// Vertical scroll: fine Y in the low three bits, coarse Y above them.
    pub open spec fn spec_y(&self) -> u8 {
        (((self.data >> 15) & 0x7) | (((self.data >> 8) & 0x1F) << 3)) as u8
    }

    // ---- field writers ----

    pub open spec fn with_addr(self, v: u16) -> ScrollReg {
        ScrollReg { data: (self.data & !(0xFFFFu32 << 3)) | ((v as u32) << 3), offset: self.offset }
    }

    pub open spec fn with_x_fine(self, v: u8) -> ScrollReg {
        ScrollReg { data: (self.data & !0x7u32) | (v as u32), offset: self.offset }
    }

    pub open spec fn with_y_fine(self, v: u8) -> ScrollReg {
        ScrollReg { data: (self.data & !(0x7u32 << 15)) | ((v as u32) << 15), offset: self.offset }
    }

    pub open spec fn with_x_coarse(self, v: u16) -> ScrollReg {
        ScrollReg { data: (self.data & !(0x1Fu32 << 3)) | ((v as u32) << 3), offset: self.offset }
    }

    pub open spec fn with_y_coarse(self, v: u16) -> ScrollReg {
        ScrollReg { data: (self.data & !(0x1Fu32 << 8)) | ((v as u32) << 8), offset: self.offset }
    }

    pub open spec fn with_base_nametable(self, v: u16) -> ScrollReg {
        ScrollReg { data: (self.data & !(0x3u32 << 13)) | ((v as u32) << 13), offset: self.offset }
    }

    pub open spec fn with_base_nametable_h(self, v: u8) -> ScrollReg {
        ScrollReg { data: (self.data & !(0x1u32 << 13)) | ((v as u32) << 13), offset: self.offset }
    }

    pub open spec fn with_base_nametable_v(self, v: u8) -> ScrollReg {
        ScrollReg { data: (self.data & !(0x1u32 << 14)) | ((v as u32) << 14), offset: self.offset }
    }

    pub open spec fn with_addr_lo(self, v: u8) -> ScrollReg {
        ScrollReg { data: (self.data & !(0xFFu32 << 3)) | ((v as u32) << 3), offset: self.offset }
    }

    pub open spec fn with_addr_hi(self, v: u8) -> ScrollReg {
        ScrollReg { data: (self.data & !(0xFFu32 << 11)) | ((v as u32) << 11), offset: self.offset }
    }

    pub open spec fn with_x(self, v: u8) -> ScrollReg {
        ScrollReg { data: (self.data & !0xFFu32) | (v as u32), offset: self.offset }
    }

    pub open spec fn with_y(self, v: u8) -> ScrollReg {
        ScrollReg {
            data: (self.data & !(0x7u32 << 15) & !(0x1Fu32 << 8)) | (((v & 0x7) as u32) << 15) | (((
            v >> 3) as u32) << 8),
            offset: self.offset,
        }
    }

    pub open spec fn incremented(self, inc: u16) -> ScrollReg {
        self.with_addr(((self.spec_addr() + inc) as u16) & 0x3fff)
    }

    pub fn new() -> (r: ScrollReg)
        ensures
            r.data == 0,
            !r.offset,
            r.wf(),
    {
        ScrollReg { data: 0, offset: false }
    }

    #[verifier::when_used_as_spec(spec_addr)]
    pub fn addr(&self) -> (r: u16)
        ensures
            r == self.spec_addr(),
    {
        ((self.data >> 3) & 0xFFFF) as u16
    }

    #[verifier::when_used_as_spec(spec_x_fine)]
    pub fn x_fine(&self) -> (r: u8)
        ensures
            r == self.spec_x_fine(),
    {
        (self.data & 0x7) as u8
    }

    #[verifier::when_used_as_spec(spec_x_coarse)]
    pub fn x_coarse(&self) -> (r: u16)
        ensures
            r == self.spec_x_coarse(),
    {
        ((self.data >> 3) & 0x1F) as u16
    }

    #[verifier::when_used_as_spec(spec_y_coarse)]
    pub fn y_coarse(&self) -> (r: u16)
        ensures
            r == self.spec_y_coarse(),
    {
        ((self.data >> 8) & 0x1F) as u16
    }

    #[verifier::when_used_as_spec(spec_base_nametable)]
    pub fn base_nametable(&self) -> (r: u16)
        ensures
            r == self.spec_base_nametable(),
    {
        ((self.data >> 13) & 0x3) as u16
    }

    #[verifier::when_used_as_spec(spec_base_nametable_h)]
    pub fn base_nametable_h(&self) -> (r: u8)
        ensures
            r == self.spec_base_nametable_h(),
    {
        ((self.data >> 13) & 0x1) as u8
    }

    #[verifier::when_used_as_spec(spec_base_nametable_v)]
    pub fn base_nametable_v(&self) -> (r: u8)
        ensures
            r == self.spec_base_nametable_v(),
    {
        ((self.data >> 14) & 0x1) as u8
    }

    #[verifier::when_used_as_spec(spec_y_fine)]
    pub fn y_fine(&self) -> (r: u8)
        ensures
            r == self.spec_y_fine(),
    {
        ((self.data >> 15) & 0x7) as u8
    }

    #[verifier::when_used_as_spec(spec_x)]
    pub fn x(&self) -> (r: u8)
        ensures
            r == self.spec_x(),
    {
        (self.data & 0xFF) as u8
    }

    #[verifier::when_used_as_spec(spec_y)]
    pub fn y(&self) -> (r: u8)
        ensures
            r == self.spec_y(),
    {
        (((self.data >> 15) & 0x7) | (((self.data >> 8) & 0x1F) << 3)) as u8
    }

    pub fn set_addr(&mut self, v: u16)
        requires
            old(self).wf(),
            v < 0x8000,
        ensures
            *final(self) == old(self).with_addr(v),
            final(self).wf(),
            final(self).addr() == v,
    {
        proof {
            lemma_scroll_writers(self.data, v as u32);
        }
        self.data = (self.data & !(0xFFFFu32 << 3)) | ((v as u32) << 3);
    }

    pub fn set_x_fine(&mut self, v: u8)
        requires
            old(self).wf(),
            v < 8,
        ensures
            *final(self) == old(self).with_x_fine(v),
            final(self).wf(),
            final(self).x_fine() == v,
    {
        let d = self.data;
        proof {
            assert(d < 0x40000 && v < 8 ==> (d & !0x7u32) | (v as u32) < 0x40000 && (((d & !0x7u32) | (
            v as u32)) & 0x7) as u8 == v) by (bit_vector);
        }
        self.data = (self.data & !0x7u32) | (v as u32);
    }

    pub fn set_y_fine(&mut self, v: u8)
        requires
            old(self).wf(),
            v < 8,
        ensures
            *final(self) == old(self).with_y_fine(v),
            final(self).wf(),
            final(self).y_fine() == v,
    {
        let d = self.data;
        proof {
            assert(d < 0x40000 && v < 8 ==> (d & !(0x7u32 << 15)) | ((v as u32) << 15) < 0x40000 && ((((d
                & !(0x7u32 << 15)) | ((v as u32) << 15)) >> 15) & 0x7) as u8 == v) by (bit_vector);
        }
        self.data = (self.data & !(0x7u32 << 15)) | ((v as u32) << 15);
    }

    pub fn set_x_coarse(&mut self, v: u16)
        requires
            old(self).wf(),
            v < 32,
        ensures
            *final(self) == old(self).with_x_coarse(v),
            final(self).wf(),
            final(self).x_coarse() == v,
    {
        proof {
            lemma_scroll_writers(self.data, v as u32);
        }
        self.data = (self.data & !(0x1Fu32 << 3)) | ((v as u32) << 3);
    }

    pub fn set_y_coarse(&mut self, v: u16)
        requires
            old(self).wf(),
            v < 32,
        ensures
            *final(self) == old(self).with_y_coarse(v),
            final(self).wf(),
            final(self).y_coarse() == v,
    {
        proof {
            lemma_scroll_writers(self.data, v as u32);
        }
        self.data = (self.data & !(0x1Fu32 << 8)) | ((v as u32) << 8);
    }

    pub fn set_base_nametable(&mut self, v: u16)
        requires
            old(self).wf(),
            v < 4,
        ensures
            *final(self) == old(self).with_base_nametable(v),
            final(self).wf(),
            final(self).base_nametable() == v,
    {
        proof {
            lemma_scroll_writers(self.data, v as u32);
        }
        self.data = (self.data & !(0x3u32 << 13)) | ((v as u32) << 13);
    }

    pub fn set_base_nametable_h(&mut self, v: u8)
        requires
            old(self).wf(),
            v < 2,
        ensures
            *final(self) == old(self).with_base_nametable_h(v),
            final(self).wf(),
            final(self).base_nametable_h() == v,
    {
        proof {
            lemma_scroll_writers(self.data, v as u32);
        }
        self.data = (self.data & !(0x1u32 << 13)) | ((v as u32) << 13);
    }

    pub fn set_base_nametable_v(&mut self, v: u8)
        requires
            old(self).wf(),
            v < 2,
        ensures
            *final(self) == old(self).with_base_nametable_v(v),
            final(self).wf(),
            final(self).base_nametable_v() == v,
    {
        proof {
            lemma_scroll_writers(self.data, v as u32);
        }
        self.data = (self.data & !(0x1u32 << 14)) | ((v as u32) << 14);
    }

    pub fn set_addr_lo(&mut self, v: u8)
        requires
            old(self).wf(),
        ensures
            *final(self) == old(self).with_addr_lo(v),
            final(self).wf(),
    {
        proof {
            lemma_scroll_writers(self.data, v as u32);
        }
        self.data = (self.data & !(0xFFu32 << 3)) | ((v as u32) << 3);
    }

    pub fn set_addr_hi(&mut self, v: u8)
        requires
            old(self).wf(),
            v < 0x40,
        ensures
            *final(self) == old(self).with_addr_hi(v),
            final(self).wf(),
    {
        proof {
            lemma_scroll_writers(self.data, v as u32);
        }
        self.data = (self.data & !(0xFFu32 << 11)) | ((v as u32) << 11);
    }

    pub fn set_x(&mut self, v: u8)
        requires
            old(self).wf(),
        ensures
            *final(self) == old(self).with_x(v),
            final(self).wf(),
            final(self).x() == v,
    {
        proof {
            lemma_scroll_writers(self.data, v as u32);
        }
        self.data = (self.data & !0xFFu32) | (v as u32);
    }

    pub fn set_y(&mut self, v: u8)
        requires
            old(self).wf(),
        ensures
            *final(self) == old(self).with_y(v),
            final(self).wf(),
            final(self).y() == v,
    {
        proof {
            lemma_scroll_writers(self.data, v as u32);
            lemma_scroll_set_y(self.data, v);
        }
        self.data = (self.data & !(0x7u32 << 15) & !(0x1Fu32 << 8)) | (((v & 0x7) as u32) << 15) | (((
        v >> 3) as u32) << 8);
    }

    /// First write sets the horizontal scroll, second the vertical one.
    pub fn write_scroll(&mut self, data: u8)
        requires
            old(self).wf(),
        ensures
            final(self).wf(),
            final(self).offset == !old(self).offset,
            final(self).data == (if old(self).offset {
                old(self).with_y(data).data
            } else {
                old(self).with_x(data).data
            }),
    {
        if self.offset {
            self.set_y(data);
        } else {
            self.set_x(data);
        }
        self.offset = !self.offset;
    }

    /// Increments coarse X modulo 32; returns whether it wrapped to zero.
    pub fn inc_x_coarse(&mut self) -> (wrapped: bool)
        requires
            old(self).wf(),
        ensures
            *final(self) == old(self).with_x_coarse(((old(self).x_coarse() + 1) as u16) & 0x1F),
            final(self).wf(),
            wrapped == (final(self).x_coarse() == 0),
    {
        proof {
            lemma_scroll_readers(self.data);
            lemma_small_masks();
        }
        let v = (self.x_coarse() + 1) & 0x1F;
        self.set_x_coarse(v);
        self.x_coarse() == 0
    }

    /// Increments the whole vertical scroll (fine and coarse Y) by one, wrapping at 256;
    /// returns whether it wrapped to zero.
    pub fn inc_y(&mut self) -> (wrapped: bool)
        requires
            old(self).wf(),
        ensures
            *final(self) == old(self).with_y(old(self).y().wrapping_add(1)),
            final(self).wf(),
            wrapped == (final(self).y() == 0),
    {
        let v = self.y().wrapping_add(1);
        self.set_y(v);
        self.y() == 0
    }

    /// Adds `inc` to the address, keeping it within 14 bits.
    pub fn increment(&mut self, inc: u16)
        requires
            old(self).wf(),
            old(self).addr() + inc <= 0xFFFF,
        ensures
            *final(self) == old(self).incremented(inc),
            final(self).wf(),
            final(self).addr() == (old(self).addr() + inc) as u16 & 0x3fff,
    {
        proof {
            lemma_small_masks();
        }
        let v = (self.addr() + inc) & 0x3fff;
        self.set_addr(v);
    }

    pub fn reset_latch(&mut self)
        ensures
            final(self).data == old(self).data,
            !final(self).offset,
    {
        self.offset = false;
    }

    /// First write sets the six high address bits, second the low byte.
    pub fn write_addr(&mut self, data: u8)
        requires
            old(self).wf(),
        ensures
            final(self).wf(),
            final(self).offset == !old(self).offset,
            final(self).data == (if old(self).offset {
                old(self).with_addr_lo(data).data
            } else {
                old(self).with_addr_hi(data & 0x3F).data
            }),
    {
        if self.offset {
            self.set_addr_lo(data);
        } else {
            proof {
                lemma_small_masks();
            }
            self.set_addr_hi(data & 0x3F);
        }
        self.offset = !self.offset;
    }
}

/// Every field writer keeps `data` below bit 18 and reads back the written value.
pub proof fn lemma_scroll_writers(d: u32, v: u32)
    by (bit_vector)
    requires
        d < 0x40000,
    ensures
        v < 0x8000 ==> (d & !(0xFFFFu32 << 3)) | (v << 3) < 0x40000,
        v < 0x8000 ==> ((((d & !(0xFFFFu32 << 3)) | (v << 3)) >> 3) & 0xFFFF) == v,
        v < 32 ==> (d & !(0x1Fu32 << 3)) | (v << 3) < 0x40000,
        v < 32 ==> ((((d & !(0x1Fu32 << 3)) | (v << 3)) >> 3) & 0x1F) == v,
        v < 32 ==> (d & !(0x1Fu32 << 8)) | (v << 8) < 0x40000,
        v < 32 ==> ((((d & !(0x1Fu32 << 8)) | (v << 8)) >> 8) & 0x1F) == v,
        v < 4 ==> (d & !(0x3u32 << 13)) | (v << 13) < 0x40000,
        v < 4 ==> ((((d & !(0x3u32 << 13)) | (v << 13)) >> 13) & 0x3) == v,
        v < 2 ==> (d & !(0x1u32 << 13)) | (v << 13) < 0x40000,
        v < 2 ==> ((((d & !(0x1u32 << 13)) | (v << 13)) >> 13) & 0x1) == v,
        v < 2 ==> (d & !(0x1u32 << 14)) | (v << 14) < 0x40000,
        v < 2 ==> ((((d & !(0x1u32 << 14)) | (v << 14)) >> 14) & 0x1) == v,
        v < 256 ==> (d & !(0xFFu32 << 3)) | (v << 3) < 0x40000,
        v < 0x40 ==> (d & !(0xFFu32 << 11)) | (v << 11) < 0x40000,
        v < 256 ==> (d & !0xFFu32) | v < 0x40000,
        v < 256 ==> (((d & !0xFFu32) | v) & 0xFF) == v,
{
}

/// Writing the vertical scroll stays below bit 18 and reads back the written value.
pub proof fn lemma_scroll_set_y(d: u32, v: u8)
    by (bit_vector)
    requires
        d < 0x40000,
    ensures
        ({
            let nd = (d & !(0x7u32 << 15) & !(0x1Fu32 << 8)) | (((v & 0x7) as u32) << 15) | (((v
                >> 3) as u32) << 8);
            &&& nd < 0x40000
            &&& (((nd >> 15) & 0x7) | (((nd >> 8) & 0x1F) << 3)) as u8 == v
        }),
{
}

/// Field readers return values within the field width.
pub proof fn lemma_scroll_readers(d: u32)
    by (bit_vector)
    ensures
        ((d >> 3) & 0x1F) < 32,
        ((d >> 8) & 0x1F) < 32,
        ((d >> 13) & 0x3) < 4,
        ((d >> 13) & 0x1) < 2,
        ((d >> 14) & 0x1) < 2,
        ((d >> 15) & 0x7) < 8,
        (d & 0x7) < 8,
        d < 0x40000 ==> ((d >> 3) & 0xFFFF) < 0x8000,
{
}

/// Two writes of the address halves (six high bits, then the low byte) leave the
/// fourteen-bit address they spell in the address field, and keep the register below
/// bit 18.
pub proof fn lemma_addr_halves(d: u32, hi: u8, lo: u8)
    by (bit_vector)
    requires
        d < 0x40000,
    ensures
        ({
            let d1 = (d & !(0xFFu32 << 11)) | (((hi & 0x3F) as u32) << 11);
            let d2 = (d1 & !(0xFFu32 << 3)) | ((lo as u32) << 3);
            &&& d1 < 0x40000
            &&& d2 < 0x40000
            &&& ((d2 >> 3) & 0xFFFF) == ((hi & 0x3F) as u32) * 256 + (lo as u32)
        }),
        hi < 0x40 ==> hi & 0x3F == hi,
{
}

/// Results of masking small values with low-bit masks.
pub proof fn lemma_small_masks()
    by (bit_vector)
    ensures
        forall|x: u16| #[trigger] (x & 0x1F) < 32,
        forall|x: u16| #[trigger] (x & 0x3fff) < 0x4000,
        forall|x: u8| #[trigger] (x & 0x3F) < 0x40,
{
}

} // verus!
