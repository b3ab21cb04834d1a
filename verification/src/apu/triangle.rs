use vstd::prelude::*;
use crate::apu::LENGTH_VALUES;
use crate::console::apu::pulse::lemma_byte_fields;
use crate::console::apu::triangle::{TRIANGLE_WAVE, lemma_wave_levels};

verus! {

/// Triangle-wave channel with a linear counter; its settings are read from the raw
/// registers.
#[derive(Clone, Copy)]
pub struct Triangle {
    pub r0: u8,
    pub r2: u8,
    pub r3: u8,
    pub timer: u16,
    pub length_counter: u8,
    pub enable: bool,
    pub length_counter_zero: bool,
    pub wave_ptr: usize,
    pub linear_counter: u8,
    pub reload_lc: bool,
}

impl Triangle {
    pub open spec fn wf(&self) -> bool {
        self.wave_ptr < 32
    }

    pub open spec fn spec_linear_counter(self) -> u8 {
        self.r0 & 0x7F
    }

    pub open spec fn spec_control(self) -> bool {
        (self.r0 >> 7) & 1 == 1
    }

    pub open spec fn spec_timer(self) -> u16 {
        (self.r2 as u16) | (((self.r3 & 0x7) as u16) << 8)
    }

    pub open spec fn spec_counter_load(self) -> u8 {
        self.r3 >> 3
    }

    /// Reload value of the linear counter.
    pub fn linear_counter(&self) -> (r: u8)
        ensures
            r == self.spec_linear_counter(),
    {
        self.r0 & 0x7F
    }

    pub fn control(&self) -> (r: bool)
        ensures
            r == self.spec_control(),
    {
        (self.r0 >> 7) & 1 == 1
    }

    pub fn counter_halt(&self) -> (r: bool)
        ensures
            r == self.spec_control(),
    {
        (self.r0 >> 7) & 1 == 1
    }

    pub fn timer_lo(&self) -> (r: u8)
        ensures
            r == self.r2,
    {
        self.r2
    }

    pub fn timer_hi(&self) -> (r: u8)
        ensures
            r == self.r3 & 0x7,
    {
        self.r3 & 0x7
    }

    pub fn timer_value(&self) -> (r: u16)
        ensures
            r == self.spec_timer(),
    {
        (self.r2 as u16) | (((self.r3 & 0x7) as u16) << 8)
    }

    pub fn counter_load(&self) -> (r: u8)
        ensures
            r == self.spec_counter_load(),
            r < 32,
    {
        proof {
            lemma_byte_fields(self.r3);
        }
        self.r3 >> 3
    }

    /// One timer clock: the wave steps only while the channel is enabled and both
    /// counters run.
    pub open spec fn ticked(self) -> Triangle {
        if !self.enable || self.length_counter_zero || self.linear_counter == 0 {
            self
        } else if self.timer == 0 {
            Triangle {
                timer: self.spec_timer(),
                wave_ptr: if self.wave_ptr == 0 { 31 } else { (self.wave_ptr - 1) as usize },
                ..self
            }
        } else {
            Triangle { timer: (self.timer - 1) as u16, ..self }
        }
    }

    pub open spec fn half_frame_ticked(self) -> Triangle {
        if !self.spec_control() {
            let counter = if self.length_counter > 0 {
                (self.length_counter - 1) as u8
            } else {
                0u8
            };
            Triangle { length_counter: counter, length_counter_zero: counter == 0, ..self }
        } else {
            self
        }
    }

    pub open spec fn quarter_frame_ticked(self) -> Triangle {
        let linear_counter = if self.reload_lc {
            self.spec_linear_counter()
        } else if self.linear_counter > 0 {
            (self.linear_counter - 1) as u8
        } else {
            self.linear_counter
        };
        Triangle {
            linear_counter,
            reload_lc: if !self.spec_control() { false } else { self.reload_lc },
            ..self
        }
    }

    pub open spec fn with_enable(self, enable: bool) -> Triangle {
        Triangle { enable, length_counter: if enable { self.length_counter } else { 0 }, ..self }
    }

    pub open spec fn with_r3(self, data: u8) -> Triangle {
        Triangle {
            r3: data,
            length_counter: if self.enable {
                LENGTH_VALUES[(data >> 3) as int]
            } else {
                self.length_counter
            },
            reload_lc: true,
            ..self
        }
    }

    pub open spec fn zeroed() -> Triangle {
        Triangle {
            r0: 0,
            r2: 0,
            r3: 0,
            timer: 0,
            length_counter: 0,
            enable: false,
            length_counter_zero: false,
            wave_ptr: 0,
            linear_counter: 0,
            reload_lc: false,
        }
    }

    pub fn new() -> (r: Triangle)
        ensures
            r == Triangle::zeroed(),
            r.wf(),
    {
        Triangle {
            r0: 0,
            r2: 0,
            r3: 0,
            timer: 0,
            length_counter: 0,
            enable: false,
            length_counter_zero: false,
            wave_ptr: 0,
            linear_counter: 0,
            reload_lc: false,
        }
    }

    /// Clocks the timer and returns the wave level.
    pub fn tick(&mut self) -> (level: u8)
        requires
            old(self).wf(),
        ensures
            *final(self) == old(self).ticked(),
            final(self).wf(),
            level == TRIANGLE_WAVE[final(self).wave_ptr as int],
            level <= 15,
    {
        if !self.enable || self.length_counter_zero || self.linear_counter == 0 {
            proof {
                lemma_wave_levels(self.wave_ptr);
            }
            return TRIANGLE_WAVE[self.wave_ptr];
        } else if self.timer == 0 {
            self.timer = self.timer_value();
            if self.wave_ptr == 0 {
                self.wave_ptr = 31;
            } else {
                self.wave_ptr -= 1;
            }
        } else {
            self.timer -= 1;
        }
        proof {
            lemma_wave_levels(self.wave_ptr);
        }
        TRIANGLE_WAVE[self.wave_ptr]
    }

    pub fn tick_half_frame(&mut self)
        ensures
            *final(self) == old(self).half_frame_ticked(),
            old(self).wf() ==> final(self).wf(),
    {
        if !self.counter_halt() {
            if self.length_counter > 0 {
                self.length_counter -= 1;
            }
            if self.length_counter == 0 {
                self.length_counter_zero = true;
            } else {
                self.length_counter_zero = false;
            }
        }
    }

    pub fn tick_quarter_frame(&mut self)
        ensures
            *final(self) == old(self).quarter_frame_ticked(),
            old(self).wf() ==> final(self).wf(),
    {
        if self.reload_lc {
            self.linear_counter = self.linear_counter();
        } else if self.linear_counter > 0 {
            self.linear_counter -= 1;
        }
        if !self.control() {
            self.reload_lc = false;
        }
    }

    pub fn set_enable(&mut self, enable: bool)
        ensures
            *final(self) == old(self).with_enable(enable),
            old(self).wf() ==> final(self).wf(),
    {
        self.enable = enable;
        if !enable {
            self.length_counter = 0;
        }
    }

    pub fn write_r0(&mut self, data: u8)
        ensures
            *final(self) == (Triangle { r0: data, ..*old(self) }),
    {
        self.r0 = data;
    }

    pub fn write_r2(&mut self, data: u8)
        ensures
            *final(self) == (Triangle { r2: data, ..*old(self) }),
    {
        self.r2 = data;
    }

    pub fn write_r3(&mut self, data: u8)
        ensures
            *final(self) == old(self).with_r3(data),
    {
        self.r3 = data;
        if self.enable {
            self.length_counter = LENGTH_VALUES[self.counter_load() as usize];
        }
        self.reload_lc = true;
    }
}

} // verus!
