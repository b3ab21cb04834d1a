pub mod common;
pub mod dmc;
pub mod noise;
pub mod pulse;
pub mod triangle;

use vstd::prelude::*;
use crate::apu::dmc::Dmc;
use crate::apu::noise::Noise;
use crate::apu::pulse::Pulse;
use crate::apu::triangle::Triangle;
use crate::console::apu::ChannelLevels;
use crate::console::apu::triangle::TRIANGLE_WAVE;

pub use crate::console::apu::LENGTH_VALUES;

verus! {

/// Audio processing unit built from channels that keep their raw register bytes.
/// Turning the channel levels into samples and handing them to the audio device is left
/// to the front end.
#[derive(Clone, Copy)]
pub struct Apu {
    pub pulse1: Pulse,
    pub pulse2: Pulse,
    pub triangle: Triangle,
    pub noise: Noise,
    pub dmc: Dmc,
    pub cycle: usize,
    pub framec_cycle: usize,
    pub framec_mode: bool,
}

impl Apu {
    pub open spec fn wf(self) -> bool {
        &&& self.pulse1.wf()
        &&& self.pulse2.wf()
        &&& self.triangle.wf()
        &&& self.noise.wf()
    }

    pub open spec fn quarter_frame(self) -> Apu {
        Apu {
            pulse1: Pulse { env: self.pulse1.env.ticked(), ..self.pulse1 },
            pulse2: Pulse { env: self.pulse2.env.ticked(), ..self.pulse2 },
            triangle: self.triangle.quarter_frame_ticked(),
            noise: Noise { env: self.noise.env.ticked(), ..self.noise },
            ..self
        }
    }

    pub open spec fn half_frame(self) -> Apu {
        Apu {
            pulse1: self.pulse1.half_frame_ticked(),
            pulse2: self.pulse2.half_frame_ticked(),
            triangle: self.triangle.half_frame_ticked(),
            noise: self.noise.half_frame_ticked(),
            ..self
        }
    }

    /// The frame sequencer: on even clocks it fires quarter and half frames at fixed
    /// steps; on odd clocks it advances, wrapping at the end of the selected sequence.
    pub open spec fn frame_counter_ticked(self) -> Apu {
        if self.cycle % 2 == 0 {
            if self.framec_cycle == 3728 || self.framec_cycle == 11185 {
                self.quarter_frame()
            } else if self.framec_cycle == 7456 {
                self.quarter_frame().half_frame()
            } else if self.framec_cycle == 14914 && !self.framec_mode {
                self.quarter_frame().half_frame()
            } else if self.framec_cycle == 18640 && self.framec_mode {
                self.quarter_frame().half_frame()
            } else {
                self
            }
        } else {
            let c = self.framec_cycle.wrapping_add(1);
            Apu {
                framec_cycle: if self.framec_mode && c == 18641 || !self.framec_mode && c == 14915 {
                    0
                } else {
                    c
                },
                ..self
            }
        }
    }

    /// One APU clock: the triangle every clock, the other channels every other clock.
    pub open spec fn ticked(self) -> Apu {
        let s0 = Apu { cycle: self.cycle.wrapping_add(1), ..self };
        let s1 = s0.frame_counter_ticked();
        let s2 = Apu { triangle: s1.triangle.ticked(), ..s1 };
        if s2.cycle % 2 == 0 {
            Apu { pulse1: s2.pulse1.ticked(), pulse2: s2.pulse2.ticked(), noise: s2.noise.ticked(), ..s2 }
        } else {
            s2
        }
    }

    /// The five channel levels of the current state.
    pub open spec fn levels(self) -> ChannelLevels {
        ChannelLevels {
            pulse1: self.pulse1.sample,
            pulse2: self.pulse2.sample,
            triangle: TRIANGLE_WAVE[self.triangle.wave_ptr as int],
            noise: self.noise.level(),
            dmc: self.dmc.output,
        }
    }

    pub open spec fn after_write(self, addr: u16, data: u8) -> Apu {
        if addr == 0x4000 {
            Apu { pulse1: self.pulse1.with_r0(data), ..self }
        } else if addr == 0x4001 {
            Apu { pulse1: self.pulse1.with_r1(data), ..self }
        } else if addr == 0x4002 {
            Apu { pulse1: self.pulse1.with_r2(data), ..self }
        } else if addr == 0x4003 {
            Apu { pulse1: self.pulse1.with_r3(data), ..self }
        } else if addr == 0x4004 {
            Apu { pulse2: self.pulse2.with_r0(data), ..self }
        } else if addr == 0x4005 {
            Apu { pulse2: self.pulse2.with_r1(data), ..self }
        } else if addr == 0x4006 {
            Apu { pulse2: self.pulse2.with_r2(data), ..self }
        } else if addr == 0x4007 {
            Apu { pulse2: self.pulse2.with_r3(data), ..self }
        } else if addr == 0x4008 {
            Apu { triangle: Triangle { r0: data, ..self.triangle }, ..self }
        } else if addr == 0x400A {
            Apu { triangle: Triangle { r2: data, ..self.triangle }, ..self }
        } else if addr == 0x400B {
            Apu { triangle: self.triangle.with_r3(data), ..self }
        } else if addr == 0x400C {
            Apu { noise: self.noise.with_r0(data), ..self }
        } else if addr == 0x400E {
            Apu { noise: self.noise.with_r2(data), ..self }
        } else if addr == 0x400F {
            Apu { noise: self.noise.with_r3(data), ..self }
        } else if addr == 0x4010 {
            Apu { dmc: Dmc { r0: data, ..self.dmc }, ..self }
        } else if addr == 0x4011 {
            Apu { dmc: Dmc { r1: data, output: data & 0x7F, ..self.dmc }, ..self }
        } else if addr == 0x4012 {
            Apu { dmc: Dmc { r2: data, ..self.dmc }, ..self }
        } else if addr == 0x4013 {
            Apu { dmc: Dmc { r3: data, ..self.dmc }, ..self }
        } else if addr == 0x4015 {
            Apu {
                pulse1: self.pulse1.with_enable(data & 0x01 != 0),
                pulse2: self.pulse2.with_enable(data & 0x02 != 0),
                triangle: self.triangle.with_enable(data & 0x04 != 0),
                noise: self.noise.with_enable(data & 0x08 != 0),
                dmc: Dmc { enable: data & 0x10 != 0, ..self.dmc },
                ..self
            }
        } else if addr == 0x4017 {
            let mode = data & 0x80 != 0;
            Apu { framec_mode: mode, cycle: if mode { 18639 } else { self.cycle }, ..self }
        } else {
            self
        }
    }

    pub open spec fn new_spec() -> Apu {
        Apu {
            pulse1: Pulse::new_spec(0),
            pulse2: Pulse::new_spec(1),
            triangle: Triangle::zeroed(),
            noise: Noise::new_spec(),
            dmc: Dmc::zeroed(),
            cycle: 0,
            framec_cycle: 0,
            framec_mode: false,
        }
    }

    pub fn new() -> (r: Apu)
        ensures
            r == Apu::new_spec(),
            r.wf(),
    {
        Apu {
            pulse1: Pulse::new(0),
            pulse2: Pulse::new(1),
            triangle: Triangle::new(),
            noise: Noise::new(),
            dmc: Dmc::new(),
            cycle: 0,
            framec_cycle: 0,
            framec_mode: false,
        }
    }

    /// Register write: 0x4000-0x4013 go to the channels' registers, 0x4015 enables
    /// channels, 0x4017 selects the frame sequence; anything else is ignored.
    pub fn write(&mut self, addr: u16, data: u8)
        requires
            old(self).wf(),
        ensures
            *final(self) == old(self).after_write(addr, data),
            final(self).wf(),
    {
        match addr {
            0x4000 => self.pulse1.write_r0(data),
            0x4001 => self.pulse1.write_r1(data),
            0x4002 => self.pulse1.write_r2(data),
            0x4003 => self.pulse1.write_r3(data),
            0x4004 => self.pulse2.write_r0(data),
            0x4005 => self.pulse2.write_r1(data),
            0x4006 => self.pulse2.write_r2(data),
            0x4007 => self.pulse2.write_r3(data),
            0x4008 => self.triangle.write_r0(data),
            0x400A => self.triangle.write_r2(data),
            0x400B => self.triangle.write_r3(data),
            0x400C => self.noise.write_r0(data),
            0x400E => self.noise.write_r2(data),
            0x400F => self.noise.write_r3(data),
            0x4010 => self.dmc.write_r0(data),
            0x4011 => self.dmc.write_r1(data),
            0x4012 => self.dmc.write_r2(data),
            0x4013 => self.dmc.write_r3(data),
            0x4015 => {
                self.pulse1.set_enable(data & 0x01 != 0);
                self.pulse2.set_enable(data & 0x02 != 0);
                self.triangle.set_enable(data & 0x04 != 0);
                self.noise.set_enable(data & 0x08 != 0);
                self.dmc.set_enable(data & 0x10 != 0);
            },
            0x4017 => {
                self.framec_mode = data & 0x80 != 0;
                if self.framec_mode {
                    self.cycle = 18639;
                }
            },
            _ => {},
        }
    }

    /// Register reads are not served: always 0.
    pub fn read(&self, _addr: u16) -> (r: u8)
        ensures
            r == 0,
    {
        0
    }

    /// One APU clock; returns the channel levels after it.
    pub fn tick(&mut self) -> (levels: ChannelLevels)
        requires
            old(self).wf(),
        ensures
            *final(self) == old(self).ticked(),
            levels == final(self).levels(),
            final(self).wf(),
    {
        self.cycle = self.cycle.wrapping_add(1);
        self.tick_frame_counter();
        let triangle = self.triangle.tick();
        let mut noise: u8 = self.noise.output_level();
        if self.cycle % 2 == 0 {
            self.pulse1.tick();
            self.pulse2.tick();
            noise = self.noise.tick();
            self.dmc.tick();
        }
        ChannelLevels {
            pulse1: self.pulse1.sample,
            pulse2: self.pulse2.sample,
            triangle,
            noise,
            dmc: self.dmc.output,
        }
    }

    fn tick_frame_counter(&mut self)
        requires
            old(self).wf(),
        ensures
            *final(self) == old(self).frame_counter_ticked(),
            final(self).wf(),
    {
        if self.cycle % 2 == 0 {
            if self.framec_cycle == 3728 || self.framec_cycle == 11185 {
                self.tick_quarter_frame();
            } else if self.framec_cycle == 7456 {
                self.tick_quarter_frame();
                self.tick_half_frame();
            } else if self.framec_cycle == 14914 && !self.framec_mode {
                self.tick_quarter_frame();
                self.tick_half_frame();
            } else if self.framec_cycle == 18640 && self.framec_mode {
                self.tick_quarter_frame();
                self.tick_half_frame();
            }
        } else {
            self.framec_cycle = self.framec_cycle.wrapping_add(1);
            if self.framec_mode && self.framec_cycle == 18641 || !self.framec_mode
                && self.framec_cycle == 14915 {
                self.framec_cycle = 0;
            }
        }
    }

    fn tick_quarter_frame(&mut self)
        requires
            old(self).wf(),
        ensures
            *final(self) == old(self).quarter_frame(),
            final(self).wf(),
    {
        self.pulse1.tick_quarter_frame();
        self.pulse2.tick_quarter_frame();
        self.triangle.tick_quarter_frame();
        self.noise.tick_quarter_frame();
    }

    fn tick_half_frame(&mut self)
        requires
            old(self).wf(),
        ensures
            *final(self) == old(self).half_frame(),
            final(self).wf(),
    {
        self.pulse1.tick_half_frame();
        self.pulse2.tick_half_frame();
        self.triangle.tick_half_frame();
        self.noise.tick_half_frame();
    }
}

} // verus!
