pub mod common;
pub mod dmc;
pub mod noise;
pub mod pulse;
pub mod triangle;

use vstd::prelude::*;
use crate::console::apu::dmc::Dmc;
use crate::console::apu::noise::Noise;
use crate::console::apu::pulse::Pulse;
use crate::console::apu::triangle::Triangle;
use crate::console::cartridge::Cartridge;
use crate::console::cartridge::CartridgeView;

verus! {

/// Length-counter load values, indexed by the five high bits of the fourth register.
pub const LENGTH_VALUES: [u8; 32] = [
    10, 254, 20, 2, 40, 4, 80, 6, 160, 8, 60, 10, 14, 12, 26, 14, 12, 16, 24, 18, 48, 20, 96, 22,
    192, 24, 72, 26, 16, 28, 32, 30,
];

/// Number of samples handed out at once: one 120th of a second of APU clocks.
pub const OUTPUT_LEN: usize = 14890;

/// The five channel levels of one APU clock; mixing them into an analog level is left
/// to the audio front end.
#[derive(Clone, Copy, PartialEq, Eq, Structural, Debug)]
pub struct ChannelLevels {
    pub pulse1: u8,
    pub pulse2: u8,
    pub triangle: u8,
    pub noise: u8,
    pub dmc: u8,
}

pub struct Apu {
    pub pulse1: Pulse,
    pub pulse2: Pulse,
    pub triangle: Triangle,
    pub noise: Noise,
    pub dmc: Dmc,
    /// Levels of the buffer being filled.
    pub output: Vec<ChannelLevels>,
    /// Levels of the last completely filled buffer.
    pub completed: Vec<ChannelLevels>,
    pub output_idx: usize,
    pub cycle: usize,
    pub irq_disable: bool,
    pub irq: bool,
    pub framec_cycle: usize,
    pub framec_mode: bool,
}

/// Abstract state of the APU.
pub struct ApuView {
    pub pulse1: Pulse,
    pub pulse2: Pulse,
    pub triangle: Triangle,
    pub noise: Noise,
    pub dmc: Dmc,
    pub output: Seq<ChannelLevels>,
    pub completed: Seq<ChannelLevels>,
    pub output_idx: usize,
    pub cycle: usize,
    pub irq_disable: bool,
    pub irq: bool,
    pub framec_cycle: usize,
    pub framec_mode: bool,
}

impl View for Apu {
    type V = ApuView;

    open spec fn view(&self) -> ApuView {
        ApuView {
            pulse1: self.pulse1,
            pulse2: self.pulse2,
            triangle: self.triangle,
            noise: self.noise,
            dmc: self.dmc,
            output: self.output@,
            completed: self.completed@,
            output_idx: self.output_idx,
            cycle: self.cycle,
            irq_disable: self.irq_disable,
            irq: self.irq,
            framec_cycle: self.framec_cycle,
            framec_mode: self.framec_mode,
        }
    }
}

pub open spec fn silent_levels() -> ChannelLevels {
    ChannelLevels { pulse1: 0, pulse2: 0, triangle: 0, noise: 0, dmc: 0 }
}

impl ApuView {
    pub open spec fn wf(self) -> bool {
        &&& self.pulse1.wf()
        &&& self.pulse2.wf()
        &&& self.triangle.wf()
        &&& self.noise.wf()
        &&& self.dmc.wf()
        &&& self.output.len() == OUTPUT_LEN
        &&& self.completed.len() == OUTPUT_LEN
        &&& self.output_idx < OUTPUT_LEN
    }

    /// Whether the next clock reads a byte from cartridge memory (for the DMC).
    pub open spec fn fetches(self) -> bool {
        self.dmc.fetches()
    }

    pub open spec fn quarter_frame(self) -> ApuView {
        ApuView {
            pulse1: Pulse { env: self.pulse1.env.ticked(), ..self.pulse1 },
            pulse2: Pulse { env: self.pulse2.env.ticked(), ..self.pulse2 },
            triangle: self.triangle.quarter_frame_ticked(),
            noise: Noise { env: self.noise.env.ticked(), ..self.noise },
            ..self
        }
    }

    pub open spec fn half_frame(self) -> ApuView {
        ApuView {
            pulse1: self.pulse1.half_frame_ticked(),
            pulse2: self.pulse2.half_frame_ticked(),
            triangle: self.triangle.half_frame_ticked(),
            noise: self.noise.half_frame_ticked(),
            ..self
        }
    }

    /// The frame sequencer: on even clocks it fires quarter and half frames at fixed
    /// steps (raising the frame interrupt at the end of the 4-step sequence); on odd
    /// clocks it advances, wrapping at the end of the selected sequence.
    pub open spec fn frame_counter_ticked(self) -> ApuView {
        if self.cycle % 2 == 0 {
            if self.framec_cycle == 3728 || self.framec_cycle == 11185 {
                self.quarter_frame()
            } else if self.framec_cycle == 7456 {
                self.quarter_frame().half_frame()
            } else if self.framec_cycle == 14914 && !self.framec_mode {
                ApuView { irq: !self.irq_disable, ..self }.quarter_frame().half_frame()
            } else if self.framec_cycle == 18640 && self.framec_mode {
                self.quarter_frame().half_frame()
            } else {
                self
            }
        } else {
            let c = self.framec_cycle.wrapping_add(1);
            ApuView {
                framec_cycle: if self.framec_mode && c == 18641 || !self.framec_mode && c == 14915 {
                    0
                } else {
                    c
                },
                ..self
            }
        }
    }

    pub open spec fn levels(self) -> ChannelLevels {
        ChannelLevels {
            pulse1: self.pulse1.output,
            pulse2: self.pulse2.output,
            triangle: self.triangle.output,
            noise: self.noise.output,
            dmc: self.dmc.output,
        }
    }

    /// Clocks the channels; `fetched` is the byte the DMC reads if it reads one.
    pub open spec fn channels_ticked(self, fetched: u8) -> ApuView {
        let s = ApuView { triangle: self.triangle.ticked(), dmc: self.dmc.ticked(fetched), ..self };
        if s.cycle % 2 == 0 {
            ApuView {
                pulse1: s.pulse1.ticked(),
                pulse2: s.pulse2.ticked(),
                noise: s.noise.ticked(),
                ..s
            }
        } else {
            s
        }
    }

    /// One APU clock, before the level is recorded.
    pub open spec fn clocked(self, cart: CartridgeView) -> ApuView {
        let s0 = ApuView { cycle: self.cycle.wrapping_add(1), ..self };
        let s1 = s0.frame_counter_ticked();
        s1.channels_ticked(cart.cpu_value(s1.dmc.sample_addr))
    }

    /// One APU clock: the new levels are recorded; when the buffer fills it becomes the
    /// completed buffer.
    pub open spec fn ticked(self, cart: CartridgeView) -> ApuView {
        let s = self.clocked(cart);
        let output = s.output.update(s.output_idx as int, s.levels());
        if s.output_idx + 1 >= OUTPUT_LEN {
            ApuView { output: s.completed, completed: output, output_idx: 0, ..s }
        } else {
            ApuView { output, output_idx: (s.output_idx + 1) as usize, ..s }
        }
    }

    /// Whether this clock completes a buffer.
    pub open spec fn tick_completes(self) -> bool {
        self.output_idx + 1 >= OUTPUT_LEN
    }

    pub open spec fn after_write(self, addr: u16, data: u8) -> ApuView {
        if addr == 0x4000 {
            ApuView { pulse1: self.pulse1.with_r0(data), ..self }
        } else if addr == 0x4001 {
            ApuView { pulse1: self.pulse1.with_r1(data), ..self }
        } else if addr == 0x4002 {
            ApuView { pulse1: self.pulse1.with_r2(data), ..self }
        } else if addr == 0x4003 {
            ApuView { pulse1: self.pulse1.with_r3(data), ..self }
        } else if addr == 0x4004 {
            ApuView { pulse2: self.pulse2.with_r0(data), ..self }
        } else if addr == 0x4005 {
            ApuView { pulse2: self.pulse2.with_r1(data), ..self }
        } else if addr == 0x4006 {
            ApuView { pulse2: self.pulse2.with_r2(data), ..self }
        } else if addr == 0x4007 {
            ApuView { pulse2: self.pulse2.with_r3(data), ..self }
        } else if addr == 0x4008 {
            ApuView { triangle: self.triangle.with_r0(data), ..self }
        } else if addr == 0x400A {
            ApuView { triangle: self.triangle.with_r2(data), ..self }
        } else if addr == 0x400B {
            ApuView { triangle: self.triangle.with_r3(data), ..self }
        } else if addr == 0x400C {
            ApuView { noise: self.noise.with_r0(data), ..self }
        } else if addr == 0x400E {
            ApuView { noise: self.noise.with_r2(data), ..self }
        } else if addr == 0x400F {
            ApuView { noise: self.noise.with_r3(data), ..self }
        } else if addr == 0x4010 {
            ApuView {
                dmc: Dmc {
                    r0: data,
                    timer: (dmc::DMC_RATE[(data & 0xF) as int] - 1) as u16,
                    irq: if (data >> 7) & 0x1 == 1 { self.dmc.irq } else { false },
                    ..self.dmc
                },
                ..self
            }
        } else if addr == 0x4011 {
            ApuView { dmc: Dmc { r1: data, output: data & 0x7F, ..self.dmc }, ..self }
        } else if addr == 0x4012 {
            ApuView { dmc: Dmc { r2: data, ..self.dmc }, ..self }
        } else if addr == 0x4013 {
            ApuView { dmc: Dmc { r3: data, ..self.dmc }, ..self }
        } else if addr == 0x4015 {
            ApuView {
                pulse1: self.pulse1.with_enable(data & 0x01 != 0),
                pulse2: self.pulse2.with_enable(data & 0x02 != 0),
                triangle: self.triangle.with_enable(data & 0x04 != 0),
                noise: self.noise.with_enable(data & 0x08 != 0),
                dmc: self.dmc.with_enable(data & 0x10 != 0),
                ..self
            }
        } else if addr == 0x4017 {
            let irq_disable = data & 0x40 != 0;
            let framec_mode = data & 0x80 != 0;
            ApuView {
                irq_disable,
                irq: if irq_disable { false } else { self.irq },
                framec_mode,
                cycle: if framec_mode { 18639 } else { self.cycle },
                ..self
            }
        } else {
            self
        }
    }

    /// The status byte read from 0x4015: length counters, DMC bytes and interrupts.
    pub open spec fn status_value(self) -> u8 {
        ((if self.pulse1.length_counter > 0 { 1u8 } else { 0u8 })
            | ((if self.pulse2.length_counter > 0 { 1u8 } else { 0u8 }) << 1)
            | ((if self.triangle.length_counter > 0 { 1u8 } else { 0u8 }) << 2)
            | ((if self.noise.length_counter > 0 { 1u8 } else { 0u8 }) << 3)
            | ((if self.dmc.bytes_remaining > 0 { 1u8 } else { 0u8 }) << 4)
            | ((if self.irq { 1u8 } else { 0u8 }) << 6)
            | ((if self.dmc.irq { 1u8 } else { 0u8 }) << 7))
    }

    pub open spec fn read_value(self, addr: u16) -> u8 {
        if addr == 0x4015 {
            self.status_value()
        } else {
            0
        }
    }

    /// Reading the status clears the frame interrupt.
    pub open spec fn after_read(self, addr: u16) -> ApuView {
        if addr == 0x4015 {
            ApuView { irq: false, ..self }
        } else {
            self
        }
    }

    pub open spec fn irq_line(self) -> bool {
        self.irq || self.dmc.irq
    }
}

impl ApuView {
    /// The power-on state: channels in their initial state, silent buffers, no interrupt.
    pub open spec fn initial() -> ApuView {
        ApuView {
            pulse1: Pulse::new_spec(0),
            pulse2: Pulse::new_spec(1),
            triangle: Triangle::zeroed(),
            noise: Noise::initial(),
            dmc: Dmc::zeroed(),
            output: Seq::new(OUTPUT_LEN as nat, |i: int| silent_levels()),
            completed: Seq::new(OUTPUT_LEN as nat, |i: int| silent_levels()),
            output_idx: 0,
            cycle: 0,
            irq_disable: false,
            irq: false,
            framec_cycle: 0,
            framec_mode: false,
        }
    }
}

impl Apu {
    pub fn new() -> (r: Self)
        ensures
            r@ == ApuView::initial(),
            r@.wf(),
            r@.pulse1 == Pulse::new_spec(0),
            r@.pulse2 == Pulse::new_spec(1),
            r@.triangle == Triangle::zeroed(),
            r@.noise == Noise::initial(),
            r@.dmc == Dmc::zeroed(),
            r@.output == Seq::new(OUTPUT_LEN as nat, |i: int| silent_levels()),
            r@.completed == Seq::new(OUTPUT_LEN as nat, |i: int| silent_levels()),
            r@.output_idx == 0,
            r@.cycle == 0,
            !r@.irq_disable,
            !r@.irq,
            r@.framec_cycle == 0,
            !r@.framec_mode,
    {
        let silent = ChannelLevels { pulse1: 0, pulse2: 0, triangle: 0, noise: 0, dmc: 0 };
        let r = Apu {
            pulse1: Pulse::new(0),
            pulse2: Pulse::new(1),
            triangle: Triangle::default(),
            noise: Noise::default(),
            dmc: Dmc::new(),
            output: vec![silent; OUTPUT_LEN],
            completed: vec![silent; OUTPUT_LEN],
            output_idx: 0,
            cycle: 0,
            irq_disable: false,
            irq: false,
            framec_cycle: 0,
            framec_mode: false,
        };
        proof {
            assert(r.output@ =~= Seq::new(OUTPUT_LEN as nat, |i: int| silent_levels()));
            assert(r.completed@ =~= Seq::new(OUTPUT_LEN as nat, |i: int| silent_levels()));
        }
        r
    }

    #[verifier::rlimit(60)]
    pub fn write(&mut self, addr: u16, data: u8)
        requires
            old(self)@.wf(),
        ensures
            final(self)@ == old(self)@.after_write(addr, data),
            final(self)@.wf(),
    {
        if addr == 0x4000 {
            self.pulse1.write_r0(data);
        } else if addr == 0x4001 {
            self.pulse1.write_r1(data);
        } else if addr == 0x4002 {
            self.pulse1.write_r2(data);
        } else if addr == 0x4003 {
            self.pulse1.write_r3(data);
        } else if addr == 0x4004 {
            self.pulse2.write_r0(data);
        } else if addr == 0x4005 {
            self.pulse2.write_r1(data);
        } else if addr == 0x4006 {
            self.pulse2.write_r2(data);
        } else if addr == 0x4007 {
            self.pulse2.write_r3(data);
        } else if addr == 0x4008 {
            self.triangle.write_r0(data);
        } else if addr == 0x400A {
            self.triangle.write_r2(data);
        } else if addr == 0x400B {
            self.triangle.write_r3(data);
        } else if addr == 0x400C {
            self.noise.write_r0(data);
        } else if addr == 0x400E {
            self.noise.write_r2(data);
        } else if addr == 0x400F {
            self.noise.write_r3(data);
        } else if addr == 0x4010 {
            self.dmc.write_r0(data);
        } else if addr == 0x4011 {
            self.dmc.write_r1(data);
        } else if addr == 0x4012 {
            self.dmc.write_r2(data);
        } else if addr == 0x4013 {
            self.dmc.write_r3(data);
        } else if addr == 0x4015 {
            self.pulse1.set_enable(data & 0x01 != 0);
            self.pulse2.set_enable(data & 0x02 != 0);
            self.triangle.set_enable(data & 0x04 != 0);
            self.noise.set_enable(data & 0x08 != 0);
            self.dmc.set_enable(data & 0x10 != 0);
        } else if addr == 0x4017 {
            self.irq_disable = data & 0x40 != 0;
            self.irq = if self.irq_disable { false } else { self.irq };
            self.framec_mode = data & 0x80 != 0;
            if self.framec_mode {
                self.cycle = 18639;
            }
        }
    }

    pub fn read(&mut self, addr: u16) -> (r: u8)
        requires
            old(self)@.wf(),
        ensures
            r == old(self)@.read_value(addr),
            final(self)@ == old(self)@.after_read(addr),
            final(self)@.wf(),
    {
        if addr == 0x4015 {
            let mut val: u8 = if self.pulse1.length_counter > 0 { 1 } else { 0 };
            val |= (if self.pulse2.length_counter > 0 { 1u8 } else { 0u8 }) << 1;
            val |= (if self.triangle.length_counter > 0 { 1u8 } else { 0u8 }) << 2;
            val |= (if self.noise.length_counter > 0 { 1u8 } else { 0u8 }) << 3;
            val |= (if self.dmc.bytes_remaining > 0 { 1u8 } else { 0u8 }) << 4;
            val |= (if self.irq { 1u8 } else { 0u8 }) << 6;
            val |= (if self.dmc.irq { 1u8 } else { 0u8 }) << 7;
            self.irq = false;
            val
        } else {
            0
        }
    }

    pub fn irq_active(&self) -> (r: bool)
        ensures
            r == self@.irq_line(),
    {
        self.irq || self.dmc.irq
    }

    /// Advances the APU by one clock; returns whether a buffer of levels was completed
    /// (it is then in `completed`).
    pub fn tick(&mut self, cartridge: &mut Cartridge) -> (done: bool)
        requires
            old(self)@.wf(),
            old(cartridge)@.wf(),
            old(cartridge)@.prg_complete(),
        ensures
            final(cartridge)@ == old(cartridge)@,
            final(self)@ == old(self)@.ticked(old(cartridge)@),
            done == old(self)@.tick_completes(),
            final(self)@.wf(),
    {
        self.clock(cartridge);
        let levels = ChannelLevels {
            pulse1: self.pulse1.output,
            pulse2: self.pulse2.output,
            triangle: self.triangle.output,
            noise: self.noise.output,
            dmc: self.dmc.output,
        };
        self.output.set(self.output_idx, levels);
        if self.output_idx + 1 >= OUTPUT_LEN {
            std::mem::swap(&mut self.output, &mut self.completed);
            self.output_idx = 0;
            true
        } else {
            self.output_idx = self.output_idx + 1;
            false
        }
    }

    fn clock(&mut self, cartridge: &mut Cartridge)
        requires
            old(self)@.wf(),
            old(cartridge)@.wf(),
            old(cartridge)@.prg_complete(),
        ensures
            final(cartridge)@ == old(cartridge)@,
            final(self)@ == old(self)@.clocked(old(cartridge)@),
            final(self)@.wf(),
    {
        self.cycle = self.cycle.wrapping_add(1);
        self.tick_frame_counter();
        self.triangle.tick();
        proof {
            if self.dmc.bytes_remaining > 0 {
                cartridge@.lemma_prg_complete_readable(self.dmc.sample_addr);
            }
        }
        self.dmc.tick(cartridge);
        if self.cycle % 2 == 0 {
            self.pulse1.tick();
            self.pulse2.tick();
            self.noise.tick();
        }
    }

    fn tick_frame_counter(&mut self)
        requires
            old(self)@.wf(),
        ensures
            final(self)@ == old(self)@.frame_counter_ticked(),
            final(self)@.wf(),
    {
        if self.cycle % 2 == 0 {
            if self.framec_cycle == 3728 || self.framec_cycle == 11185 {
                self.tick_quarter_frame();
            } else if self.framec_cycle == 7456 {
                self.tick_quarter_frame();
                self.tick_half_frame();
            } else if self.framec_cycle == 14914 && !self.framec_mode {
                self.irq = !self.irq_disable;
                self.tick_quarter_frame();
                self.tick_half_frame();
            } else if self.framec_cycle == 18640 && self.framec_mode {
                self.tick_quarter_frame();
                self.tick_half_frame();
            }
        } else {
            self.framec_cycle = self.framec_cycle.wrapping_add(1);
            if self.framec_mode && self.framec_cycle == 18641 || !self.framec_mode
                && self.framec_cycle == 14915 {
                self.framec_cycle = 0;
            }
        }
    }

    fn tick_quarter_frame(&mut self)
        requires
            old(self)@.wf(),
        ensures
            final(self)@ == old(self)@.quarter_frame(),
            final(self)@.wf(),
    {
        self.pulse1.tick_quarter_frame();
        self.pulse2.tick_quarter_frame();
        self.triangle.tick_quarter_frame();
        self.noise.tick_quarter_frame();
    }

    fn tick_half_frame(&mut self)
        requires
            old(self)@.wf(),
        ensures
            final(self)@ == old(self)@.half_frame(),
            final(self)@.wf(),
    {
        self.pulse1.tick_half_frame();
        self.pulse2.tick_half_frame();
        self.triangle.tick_half_frame();
        self.noise.tick_half_frame();
    }
}

} // verus!
