use vstd::prelude::*;
use crate::bits::lemma_masks;
use crate::console::apu::{Apu, ApuView};
use crate::console::cartridge::{Cartridge, CartridgeView};
use crate::console::controller::Controller;
use crate::console::ppu::{Ppu, PpuView, lemma_idle_tick_keeps_oam, lemma_oam_port_write};

verus! {

pub const RAM_START: u16 = 0x0000;
pub const RAM_END: u16 = 0x1FFF;
pub const PPU_REGISTERS_START: u16 = 0x2000;
pub const PPU_REGISTERS_END: u16 = 0x3FFF;
pub const OAM_DMA_ADDR: u16 = 0x4014;
pub const CONTROLLER1_ADDR: u16 = 0x4016;
pub const CONTROLLER2_ADDR: u16 = 0x4017;
pub const RAM_ADDR_MIRROR_MASK: u16 = 0x07FF;

/// An access the console hardware cannot serve.
#[derive(Clone, Copy, PartialEq, Eq, Structural, Debug)]
pub enum BusFault {
    /// Reading this address is not served.
    Read(u16),
    /// Writing this address is not served.
    Write(u16),
}

/// The CPU's view of the console: RAM, PPU, APU, controller and cartridge.
pub struct Bus {
    pub ram: Vec<u8>,
    pub ppu: Ppu,
    pub apu: Apu,
    pub cycles: usize,
    pub controller: Controller,
    pub cartridge: Cartridge,
    /// Set when the PPU entered vertical blank: a frame is ready to be shown.
    pub frame_ready: bool,
    /// Set when the APU completed a buffer of levels.
    pub audio_ready: bool,
}

/// Abstract state of the bus.
pub struct BusView {
    pub ram: Seq<u8>,
    pub ppu: PpuView,
    pub apu: ApuView,
    pub cycles: usize,
    pub controller: Controller,
    pub cartridge: CartridgeView,
    pub frame_ready: bool,
    pub audio_ready: bool,
}

impl View for Bus {
    type V = BusView;

    closed spec fn view(&self) -> BusView {
        BusView {
            ram: self.ram@,
            ppu: self.ppu@,
            apu: self.apu@,
            cycles: self.cycles,
            controller: self.controller,
            cartridge: self.cartridge@,
            frame_ready: self.frame_ready,
            audio_ready: self.audio_ready,
        }
    }
}

/// The APU after `n` clocks.
pub open spec fn apu_run(apu: ApuView, cart: CartridgeView, n: nat) -> ApuView
    decreases n,
{
    if n == 0 {
        apu
    } else {
        apu_run(apu, cart, (n - 1) as nat).ticked(cart)
    }
}

/// Whether one of the first `n` clocks completes a buffer.
pub open spec fn apu_run_completes(apu: ApuView, cart: CartridgeView, n: nat) -> bool
    decreases n,
{
    if n == 0 {
        false
    } else {
        apu_run_completes(apu, cart, (n - 1) as nat) || apu_run(apu, cart, (n - 1) as nat).tick_completes()
    }
}

/// The PPU after `n` clocks.
pub open spec fn ppu_run(ppu: PpuView, cart: CartridgeView, n: nat) -> PpuView
    decreases n,
{
    if n == 0 {
        ppu
    } else {
        ppu_run(ppu, cart, (n - 1) as nat).ticked(cart)
    }
}

/// Whether one of the first `n` clocks starts vertical blank.
pub open spec fn ppu_run_vblanks(ppu: PpuView, cart: CartridgeView, n: nat) -> bool
    decreases n,
{
    if n == 0 {
        false
    } else {
        ppu_run_vblanks(ppu, cart, (n - 1) as nat) || ppu_run(ppu, cart, (n - 1) as nat).tick_starts_vblank()
    }
}

impl BusView {
    /// The bus as the console powers on with cartridge `cart`.
    pub open spec fn is_power_on(self, cart: CartridgeView) -> bool {
        &&& self.ram == Seq::new(0x800, |i: int| 0u8)
        &&& self.ppu == Ppu::initial()
        &&& self.apu == ApuView::initial()
        &&& self.cycles == 0
        &&& self.controller.buttons@ == Seq::new(8, |i: int| false)
        &&& !self.controller.strobe && self.controller.read_ptr == 0
        &&& self.cartridge == cart
        &&& !self.frame_ready && !self.audio_ready
    }

    pub open spec fn wf(self) -> bool {
        &&& self.ram.len() == 0x800
        &&& self.ppu.wf()
        &&& self.apu.wf()
        &&& self.controller.wf()
        &&& self.cartridge.playable()
    }

    /// `n` CPU cycles: `n` APU clocks, then `3 n` PPU clocks.
    #[verifier::opaque]
    pub open spec fn ticked(self, n: u8) -> BusView {
        BusView {
            cycles: self.cycles.wrapping_add(n as usize),
            apu: apu_run(self.apu, self.cartridge, n as nat),
            ppu: ppu_run(self.ppu, self.cartridge, 3 * n as nat),
            audio_ready: self.audio_ready || apu_run_completes(self.apu, self.cartridge, n as nat),
            frame_ready: self.frame_ready || ppu_run_vblanks(self.ppu, self.cartridge, 3 * n as nat),
            ..self
        }
    }

    /// Whether a CPU read of `addr` is served.
    pub open spec fn readable(self, addr: u16) -> bool {
        if PPU_REGISTERS_START <= addr <= PPU_REGISTERS_END {
            self.ppu.port_ok(addr)
        } else if addr >= 0x4020 {
            self.cartridge.cpu_readable(addr)
        } else {
            true
        }
    }

    /// Value of a CPU read of `addr`.
    pub open spec fn read_value(self, addr: u16) -> u8 {
        if addr <= RAM_END {
            self.ram[(addr & RAM_ADDR_MIRROR_MASK) as int]
        } else if addr <= PPU_REGISTERS_END {
            self.ppu.read_value(self.cartridge, addr)
        } else if addr == CONTROLLER1_ADDR {
            self.controller.read_value()
        } else if addr == CONTROLLER2_ADDR {
            0
        } else if 0x4000 <= addr <= 0x4017 {
            self.apu.read_value(addr)
        } else if addr >= 0x4020 {
            self.cartridge.cpu_value(addr)
        } else {
            0
        }
    }

    /// The bus after a CPU read of `addr` (reads of some ports have effects).
    pub open spec fn after_read(self, addr: u16) -> BusView {
        if addr <= RAM_END {
            self
        } else if addr <= PPU_REGISTERS_END {
            BusView { ppu: self.ppu.after_read(self.cartridge, addr), ..self }
        } else if addr == CONTROLLER1_ADDR {
            BusView { controller: self.controller.after_read(), ..self }
        } else if addr == CONTROLLER2_ADDR {
            self
        } else if 0x4000 <= addr <= 0x4017 {
            BusView { apu: self.apu.after_read(addr), ..self }
        } else {
            self
        }
    }

    /// Whether a plain (non-DMA) CPU write of `addr` is served.
    pub open spec fn writable(self, addr: u16) -> bool {
        if PPU_REGISTERS_START <= addr <= PPU_REGISTERS_END {
            self.ppu.port_ok(addr)
        } else if addr >= 0x4020 {
            self.cartridge.cpu_writable(addr)
        } else {
            true
        }
    }

    /// The bus after a plain (non-DMA) CPU write.
    pub open spec fn after_plain_write(self, addr: u16, data: u8) -> BusView {
        if addr <= RAM_END {
            BusView { ram: self.ram.update((addr & RAM_ADDR_MIRROR_MASK) as int, data), ..self }
        } else if addr <= PPU_REGISTERS_END {
            BusView {
                ppu: self.ppu.after_write(self.cartridge, addr, data),
                cartridge: self.ppu.cart_after_write(self.cartridge, addr, data),
                ..self
            }
        } else if addr == CONTROLLER1_ADDR {
            BusView { controller: self.controller.after_write(data), ..self }
        } else if 0x4000 <= addr <= 0x4017 {
            BusView { apu: self.apu.after_write(addr, data), ..self }
        } else if addr >= 0x4020 {
            BusView { cartridge: self.cartridge.after_cpu_write(addr, data), ..self }
        } else {
            self
        }
    }

    /// One step of sprite DMA: copy byte `i` of the page to OAM, taking two cycles.
    #[verifier::opaque]
    pub open spec fn dma_step(self, page: u8, i: nat) -> BusView {
        let addr = ((page as u16) * 256 + i) as u16;
        let b1 = self.after_read(addr);
        b1.after_plain_write(0x2004, self.read_value(addr)).ticked(2)
    }

    /// The bus after the first `n` DMA steps, with the address of the first read that was
    /// not served (the copy stops there).
    pub open spec fn dma_run(self, page: u8, n: nat) -> (BusView, Option<u16>)
        decreases n,
    {
        if n == 0 {
            (self, None)
        } else {
            let (b, failed) = self.dma_run(page, (n - 1) as nat);
            let addr = ((page as u16) * 256 + (n - 1)) as u16;
            if failed is Some {
                (b, failed)
            } else if b.readable(addr) {
                (b.dma_step(page, (n - 1) as nat), None)
            } else {
                (b, Some(addr))
            }
        }
    }

    /// Sprite DMA: 256 copies and one extra cycle, stopping at a read that is not served.
    pub open spec fn dma(self, page: u8) -> (BusView, Option<u16>) {
        let (b, failed) = self.dma_run(page, 256);
        if failed is Some {
            (b, failed)
        } else {
            (b.ticked(1), None)
        }
    }

    /// The bus after a CPU write of `data` to `addr`, and the fault that stopped it, if any.
    pub open spec fn write_result(self, addr: u16, data: u8) -> (BusView, Option<BusFault>) {
        if addr == OAM_DMA_ADDR {
            let (b, failed) = self.dma(data);
            match failed {
                Some(a) => (b, Some(BusFault::Read(a))),
                None => (b, None),
            }
        } else if self.writable(addr) {
            (self.after_plain_write(addr, data), None)
        } else {
            (self, Some(BusFault::Write(addr)))
        }
    }
}

/// Work RAM is two kilobytes seen four times over 0x0000-0x1FFF: a CPU write to any RAM
/// address is served, read back at that address and at every address that mirrors it,
/// and leaves the other RAM bytes as they were.
pub proof fn lemma_ram_write_read(b: BusView, addr: u16, other: u16, v: u8)
    requires
        b.wf(),
        addr <= RAM_END,
        other <= RAM_END,
    ensures
        b.write_result(addr, v) == (b.after_plain_write(addr, v), None::<BusFault>),
        b.after_plain_write(addr, v).wf(),
        b.after_plain_write(addr, v).readable(other),
        other % 0x800 == addr % 0x800 ==> b.after_plain_write(addr, v).read_value(other) == v,
        other % 0x800 != addr % 0x800 ==> b.after_plain_write(addr, v).read_value(other)
            == b.read_value(other),
{
    lemma_masks();
}

/// With rendering off, PPU clocks leave sprite memory, its address and the mask alone.
proof fn lemma_idle_run_keeps_oam(p: PpuView, cart: CartridgeView, n: nat)
    requires
        !p.mask.show_bg,
        !p.mask.show_sprites,
    ensures
        ppu_run(p, cart, n).oam == p.oam,
        ppu_run(p, cart, n).oam_addr == p.oam_addr,
        ppu_run(p, cart, n).mask == p.mask,
    decreases n,
{
    if n > 0 {
        lemma_idle_run_keeps_oam(p, cart, (n - 1) as nat);
        lemma_idle_tick_keeps_oam(ppu_run(p, cart, (n - 1) as nat), cart);
    }
}

/// Sprite-memory slot `i` places after `start`.
pub open spec fn oam_slot(start: u8, i: int) -> int {
    (start + i) % 256
}

/// One sprite-DMA step from work RAM with rendering off: the byte goes to the
/// sprite-memory address, which moves on; RAM and the mask stay as they were.
proof fn lemma_dma_step_from_ram(c: BusView, page: u8, i: nat)
    requires
        c.ram.len() == 0x800,
        page < 0x20,
        i < 256,
        !c.ppu.mask.show_bg,
        !c.ppu.mask.show_sprites,
    ensures
        c.readable(((page as u16) * 256 + i) as u16),
        c.dma_step(page, i).ram == c.ram,
        c.dma_step(page, i).ppu.mask == c.ppu.mask,
        c.dma_step(page, i).ppu.oam == c.ppu.oam.update(
            c.ppu.oam_addr as int,
            c.ram[(page * 256 + i) % 0x800],
        ),
        c.dma_step(page, i).ppu.oam_addr == c.ppu.oam_addr.wrapping_add(1),
{
    let addr = ((page as u16) * 256 + i) as u16;
    let v = c.ram[(page * 256 + i) % 0x800];
    assert(addr <= RAM_END);
    assert(c.read_value(addr) == v) by {
        lemma_masks();
    }
    assert(c.after_read(addr) == c);
    lemma_oam_port_write(c.ppu, c.cartridge, v);
    let w = c.after_plain_write(0x2004, v);
    assert(w.ppu == (PpuView {
        oam: c.ppu.oam.update(c.ppu.oam_addr as int, v),
        oam_addr: c.ppu.oam_addr.wrapping_add(1),
        ..c.ppu
    }));
    assert(w.ram == c.ram);
    reveal(BusView::dma_step);
    reveal(BusView::ticked);
    lemma_idle_run_keeps_oam(w.ppu, w.cartridge, 6);
}

/// The first `n` steps of a sprite DMA from a page of work RAM with rendering off: each
/// byte of the page goes to the next sprite-memory slot; RAM and the mask stay as they
/// were.
proof fn lemma_dma_run_from_ram(b: BusView, page: u8, n: nat)
    requires
        b.wf(),
        page < 0x20,
        n <= 256,
        !b.ppu.mask.show_bg,
        !b.ppu.mask.show_sprites,
    ensures
        b.dma_run(page, n).1 is None,
        ({
            let r = b.dma_run(page, n).0;
            &&& r.ram == b.ram
            &&& r.ppu.mask == b.ppu.mask
            &&& r.ppu.oam_addr == ((b.ppu.oam_addr + n) % 256) as u8
            &&& r.ppu.oam.len() == 256
            &&& forall|i: int|
                0 <= i < 256 ==> #[trigger] r.ppu.oam[oam_slot(b.ppu.oam_addr, i)] == if i < n {
                    b.ram[(page * 256 + i) % 0x800]
                } else {
                    b.ppu.oam[oam_slot(b.ppu.oam_addr, i)]
                }
        }),
    decreases n,
{
    if n > 0 {
        lemma_dma_run_from_ram(b, page, (n - 1) as nat);
        let c = b.dma_run(page, (n - 1) as nat).0;
        lemma_dma_step_from_ram(c, page, (n - 1) as nat);
        let r = b.dma_run(page, n).0;
        assert(r == c.dma_step(page, (n - 1) as nat));
        assert(c.ppu.oam_addr == oam_slot(b.ppu.oam_addr, n - 1));
        assert forall|i: int| 0 <= i < 256 implies #[trigger] r.ppu.oam[oam_slot(b.ppu.oam_addr, i)]
            == if i < n {
            b.ram[(page * 256 + i) % 0x800]
        } else {
            b.ppu.oam[oam_slot(b.ppu.oam_addr, i)]
        } by {
            if i != n - 1 {
                assert(oam_slot(b.ppu.oam_addr, i) != oam_slot(b.ppu.oam_addr, n - 1));
            }
        }
    }
}

/// Sprite DMA from a page of work RAM, with rendering off, is served and copies the
/// page's 256 bytes into sprite memory, starting at the sprite-memory address and
/// wrapping around; the address ends where it started and RAM is unchanged.
pub proof fn lemma_dma_copies_page(b: BusView, page: u8)
    requires
        b.wf(),
        page < 0x20,
        !b.ppu.mask.show_bg,
        !b.ppu.mask.show_sprites,
    ensures
        b.write_result(OAM_DMA_ADDR, page).1 is None,
        b.write_result(OAM_DMA_ADDR, page).0.ram == b.ram,
        b.write_result(OAM_DMA_ADDR, page).0.ppu.oam_addr == b.ppu.oam_addr,
        forall|i: int|
            0 <= i < 256 ==> #[trigger] b.write_result(OAM_DMA_ADDR, page).0.ppu.oam[oam_slot(
                b.ppu.oam_addr,
                i,
            )] == b.ram[(page * 256 + i) % 0x800],
{
    lemma_dma_run_from_ram(b, page, 256);
    let r = b.dma_run(page, 256).0;
    reveal(BusView::ticked);
    lemma_idle_run_keeps_oam(r.ppu, r.cartridge, 3);
}

impl Bus {
    pub fn new(cartridge: Cartridge) -> (r: Self)
        requires
            cartridge@.wf(),
        ensures
            r@.wf() <==> cartridge@.playable(),
            r@.ram == Seq::new(0x800, |i: int| 0u8),
            r@.ppu == Ppu::initial(),
            r@.apu == ApuView::initial(),
            r@.cycles == 0,
            r@.controller.buttons@ == Seq::new(8, |i: int| false),
            !r@.controller.strobe && r@.controller.read_ptr == 0,
            r@.cartridge == cartridge@,
            !r@.frame_ready && !r@.audio_ready,
    {
        let r = Bus {
            ram: vec![0; 0x800],
            ppu: Ppu::new(),
            apu: Apu::new(),
            controller: Controller::new(),
            cycles: 0,
            cartridge,
            frame_ready: false,
            audio_ready: false,
        };
        proof {
            assert(r.ram@ =~= Seq::new(0x800, |i: int| 0u8));
        }
        r
    }

    /// Whether the cartridge can serve every access the console makes while running.
    pub fn cartridge_playable(&self) -> (r: bool)
        requires
            self@.cartridge.wf(),
        ensures
            r == self@.cartridge.playable(),
    {
        self.cartridge.is_playable()
    }

    /// Advances the APU by `cycles` clocks and the PPU by three times as many.
    pub fn tick(&mut self, cycles: u8)
        requires
            old(self)@.wf(),
        ensures
            final(self)@ == old(self)@.ticked(cycles),
            final(self)@.wf(),
    {
        let ghost b0 = self@;
        self.cycles = self.cycles.wrapping_add(cycles as usize);
        let mut i: u8 = 0;
        while i < cycles
            invariant
                b0.wf(),
                i <= cycles,
                self.ram@ == b0.ram,
                self.cycles == b0.cycles.wrapping_add(cycles as usize),
                self.controller == b0.controller,
                self.cartridge@ == b0.cartridge,
                self.ppu@ == b0.ppu,
                self.frame_ready == b0.frame_ready,
                self.apu@.wf(),
                self.apu@ == apu_run(b0.apu, b0.cartridge, i as nat),
                self.audio_ready == (b0.audio_ready || apu_run_completes(b0.apu, b0.cartridge, i as nat)),
            decreases cycles - i,
        {
            if self.apu.tick(&mut self.cartridge) {
                self.audio_ready = true;
            }
            i += 1;
        }
        let n: u16 = 3 * (cycles as u16);
        let mut k: u16 = 0;
        while k < n
            invariant
                b0.wf(),
                k <= n,
                n == 3 * cycles,
                self.ram@ == b0.ram,
                self.cycles == b0.cycles.wrapping_add(cycles as usize),
                self.controller == b0.controller,
                self.cartridge@ == b0.cartridge,
                self.apu@.wf(),
                self.apu@ == apu_run(b0.apu, b0.cartridge, cycles as nat),
                self.audio_ready == (b0.audio_ready || apu_run_completes(b0.apu, b0.cartridge, cycles as nat)),
                self.ppu@.wf(),
                self.ppu@ == ppu_run(b0.ppu, b0.cartridge, k as nat),
                self.frame_ready == (b0.frame_ready || ppu_run_vblanks(b0.ppu, b0.cartridge, k as nat)),
            decreases n - k,
        {
            if self.ppu.tick(&mut self.cartridge) {
                self.frame_ready = true;
            }
            k += 1;
        }
        proof {
            reveal(BusView::ticked);
            assert(self@ == b0.ticked(cycles));
        }
    }

    pub fn nmi_active(&mut self) -> (r: bool)
        ensures
            r == old(self)@.ppu.nmi_up,
            *final(self) == *old(self),
    {
        self.ppu.nmi_up
    }

    pub fn irq_active(&mut self) -> (r: bool)
        ensures
            r == old(self)@.apu.irq_line(),
            *final(self) == *old(self),
    {
        self.cartridge.irq_active() || self.apu.irq_active()
    }

    /// Whether a CPU read of `addr` is served.
    pub fn can_read(&self, addr: u16) -> (r: bool)
        requires
            self@.wf(),
        ensures
            r == self@.readable(addr),
    {
        if PPU_REGISTERS_START <= addr && addr <= PPU_REGISTERS_END {
            (addr & 0x2007) != 0x2007 || self.ppu.vaddr.addr() < 0x4000
        } else if addr >= 0x4020 {
            self.cartridge.can_read_cpu(addr)
        } else {
            true
        }
    }

    /// Whether a plain CPU write of `addr` is served.
    pub fn can_write(&self, addr: u16) -> (r: bool)
        requires
            self@.wf(),
        ensures
            r == self@.writable(addr),
    {
        if PPU_REGISTERS_START <= addr && addr <= PPU_REGISTERS_END {
            (addr & 0x2007) != 0x2007 || self.ppu.vaddr.addr() < 0x4000
        } else if addr >= 0x4020 {
            self.cartridge.can_write_cpu(addr)
        } else {
            true
        }
    }

    pub fn read(&mut self, addr: u16) -> (r: u8)
        requires
            old(self)@.wf(),
            old(self)@.readable(addr),
        ensures
            r == old(self)@.read_value(addr),
            final(self)@ == old(self)@.after_read(addr),
            final(self)@.wf(),
    {
        if addr <= RAM_END {
            proof {
                lemma_ram_mask(addr);
            }
            self.ram[(addr & RAM_ADDR_MIRROR_MASK) as usize]
        } else if addr <= PPU_REGISTERS_END {
            self.ppu.read(addr, &mut self.cartridge)
        } else if addr == CONTROLLER1_ADDR {
            self.controller.read()
        } else if addr == CONTROLLER2_ADDR {
            0
        } else if 0x4000 <= addr && addr <= 0x4017 {
            self.apu.read(addr)
        } else if addr >= 0x4020 {
            self.cartridge.read_cpu(addr)
        } else {
            0
        }
    }

    /// Little-endian 16-bit read of `addr` and the following address (wrapping).
    pub fn read_u16(&mut self, addr: u16) -> (r: u16)
        requires
            old(self)@.wf(),
            old(self)@.readable(addr),
            old(self)@.after_read(addr).readable(addr.wrapping_add(1)),
        ensures
            r == old(self)@.read_value(addr) as u16 | ((old(self)@.after_read(addr).read_value(
                addr.wrapping_add(1),
            ) as u16) << 8),
            final(self)@ == old(self)@.after_read(addr).after_read(addr.wrapping_add(1)),
            final(self)@.wf(),
    {
        let lo = self.read(addr) as u16;
        let hi = self.read(addr.wrapping_add(1)) as u16;
        lo | (hi << 8)
    }

    /// A plain (non-DMA) write.
    fn write_plain(&mut self, addr: u16, data: u8)
        requires
            old(self)@.wf(),
            old(self)@.writable(addr),
            addr != OAM_DMA_ADDR,
        ensures
            final(self)@ == old(self)@.after_plain_write(addr, data),
            final(self)@.wf(),
    {
        proof {
            self@.cartridge.lemma_writes_keep_playable(addr, data);
            self@.cartridge.lemma_writes_keep_playable(self@.ppu.vaddr.spec_addr(), data);
        }
        if addr <= RAM_END {
            proof {
                lemma_ram_mask(addr);
            }
            self.ram.set((addr & RAM_ADDR_MIRROR_MASK) as usize, data);
        } else if addr <= PPU_REGISTERS_END {
            self.ppu.write(addr, data, &mut self.cartridge);
        } else if addr == CONTROLLER1_ADDR {
            self.controller.write(data);
        } else if 0x4000 <= addr && addr <= 0x4017 {
            self.apu.write(addr, data);
        } else if addr >= 0x4020 {
            self.cartridge.write_cpu(addr, data);
        }
    }

    /// Writes `data` to `addr`; a write to 0x4014 copies a page to sprite memory.
    /// Fails on a write the hardware cannot serve, or a DMA read it cannot serve.
    pub fn write(&mut self, addr: u16, data: u8) -> (r: Result<(), BusFault>)
        requires
            old(self)@.wf(),
        ensures
            final(self)@.wf(),
            final(self)@ == old(self)@.write_result(addr, data).0,
            r == (match old(self)@.write_result(addr, data).1 {
                Some(f) => Err::<(), BusFault>(f),
                None => Ok(()),
            }),
    {
        if addr == OAM_DMA_ADDR {
            match self.oam_dma(data) {
                Ok(()) => Ok(()),
                Err(a) => Err(BusFault::Read(a)),
            }
        } else if self.can_write(addr) {
            self.write_plain(addr, data);
            Ok(())
        } else {
            Err(BusFault::Write(addr))
        }
    }

    /// Copies page `page` to sprite memory, two cycles per byte plus one; fails with the
    /// address of a read that is not served.
    fn oam_dma(&mut self, page: u8) -> (r: Result<(), u16>)
        requires
            old(self)@.wf(),
        ensures
            final(self)@.wf(),
            final(self)@ == old(self)@.dma(page).0,
            r == (match old(self)@.dma(page).1 {
                Some(a) => Err::<(), u16>(a),
                None => Ok(()),
            }),
    {
        let ghost b0 = self@;
        let start_addr = (page as u16) << 8;
        proof {
            lemma_page_start(page);
        }
        let mut i: u16 = 0;
        while i < 256
            invariant
                self@.wf(),
                i <= 256,
                start_addr == (page as u16) * 256,
                b0 == old(self)@,
                b0.dma_run(page, i as nat) == (self@, None::<u16>),
            decreases 256 - i,
        {
            let addr = start_addr + i;
            if !self.can_read(addr) {
                proof {
                    lemma_dma_run_next(b0, page, i as nat, self@);
                    lemma_dma_stops(b0, page, (i + 1) as nat, 256);
                }
                return Err(addr);
            }
            let ghost before = self@;
            let oam_data = self.read(addr);
            let ghost mid = self@;
            proof {
                lemma_oam_port_writable(self@);
            }
            self.write_plain(0x2004, oam_data);
            let ghost mid2 = self@;
            self.tick(2);
            proof {
                lemma_dma_step(before, page, i as nat, mid, mid2, self@);
                lemma_dma_run_next(b0, page, i as nat, before);
            }
            i += 1;
        }
        self.tick(1);
        Ok(())
    }
}

/// Unfolds one DMA step from the three bus operations that make it.
proof fn lemma_dma_step(before: BusView, page: u8, i: nat, mid: BusView, mid2: BusView, after: BusView)
    requires
        i < 256,
        mid == before.after_read(((page as u16) * 256 + i) as u16),
        mid2 == mid.after_plain_write(0x2004, before.read_value(((page as u16) * 256 + i) as u16)),
        after == mid2.ticked(2),
    ensures
        after == before.dma_step(page, i),
{
    reveal(BusView::dma_step);
}

/// One more DMA step: it fails exactly when its read is not served.
proof fn lemma_dma_run_next(b0: BusView, page: u8, i: nat, b: BusView)
    requires
        b0.dma_run(page, i) == (b, None::<u16>),
    ensures
        b.readable(((page as u16) * 256 + i) as u16) ==> b0.dma_run(page, i + 1) == (
            b.dma_step(page, i),
            None::<u16>,
        ),
        !b.readable(((page as u16) * 256 + i) as u16) ==> b0.dma_run(page, i + 1) == (
            b,
            Some(((page as u16) * 256 + i) as u16),
        ),
{
}

/// Once a DMA run stops it stays where it stopped.
proof fn lemma_dma_stops(b: BusView, page: u8, k: nat, n: nat)
    requires
        b.dma_run(page, k).1 is Some,
        k <= n,
    ensures
        b.dma_run(page, n) == b.dma_run(page, k),
    decreases n - k,
{
    if k < n {
        lemma_dma_stops(b, page, k, (n - 1) as nat);
    }
}

/// The sprite-memory data port is always writable.
proof fn lemma_oam_port_writable(b: BusView)
    ensures
        b.writable(0x2004),
{
    assert((0x2004u16 & 0x2007u16) != 0x2007u16) by (bit_vector);
}

proof fn lemma_page_start(page: u8)
    ensures
        ((page as u16) << 8) == (page as u16) * 256,
{
    assert(((page as u16) << 8) == (page as u16) * 256) by (bit_vector);
}

/// RAM is mirrored every 2 kB.
proof fn lemma_ram_mask(addr: u16)
    ensures
        (addr & RAM_ADDR_MIRROR_MASK) < 0x800,
{
    assert((addr & 0x07FF) < 0x800) by (bit_vector);
}

} // verus!
