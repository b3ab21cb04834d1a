use vstd::prelude::*;
use crate::console::apu::LENGTH_VALUES;
use crate::console::apu::pulse::{lemma_byte_fields, lemma_timer_bytes};

verus! {

pub const TRIANGLE_WAVE: [u8; 32] = [
    15, 14, 13, 12, 11, 10, 9, 8, 7, 6, 5, 4, 3, 2, 1, 0, 0, 1, 2, 3, 4, 5, 6, 7, 8, 9, 10, 11, 12,
    13, 14, 15,
];

/// Triangle-wave channel with linear and length counters.
#[derive(Clone, Copy)]
pub struct Triangle {
    pub timer: u16,
    pub enable: bool,
    pub length_counter: u8,
    pub wave_ptr: usize,
    pub linear_counter: u8,
    pub reload_linear: bool,
    pub output: u8,
    pub linear_counter_start: u8,
    pub control: bool,
    pub counter_halt: bool,
    pub timer_start: u16,
}

impl Triangle {
    pub open spec fn wf(&self) -> bool {
        &&& self.wave_ptr < 32
        &&& self.timer_start <= 0x7FF
        &&& self.linear_counter_start <= 0x7F
        &&& self.output <= 15
    }

    pub open spec fn zeroed() -> Triangle {
        Triangle {
            timer: 0,
            enable: false,
            length_counter: 0,
            wave_ptr: 0,
            linear_counter: 0,
            reload_linear: false,
            output: 0,
            linear_counter_start: 0,
            control: false,
            counter_halt: false,
            timer_start: 0,
        }
    }

    /// One timer clock: the wave steps only while both counters are non-zero.
    pub open spec fn ticked(self) -> Triangle {
        if !self.enable || self.length_counter == 0 || self.linear_counter == 0 {
            self
        } else {
            let timer = if self.timer == 0 { self.timer_start } else { (self.timer - 1) as u16 };
            let wave_ptr = if self.timer == 0 {
                if self.wave_ptr == 0 { 31usize } else { (self.wave_ptr - 1) as usize }
            } else {
                self.wave_ptr
            };
            Triangle { timer, wave_ptr, output: TRIANGLE_WAVE[wave_ptr as int], ..self }
        }
    }

    pub open spec fn half_frame_ticked(self) -> Triangle {
        if !self.counter_halt && self.length_counter > 0 {
            Triangle { length_counter: (self.length_counter - 1) as u8, ..self }
        } else {
            self
        }
    }

    pub open spec fn quarter_frame_ticked(self) -> Triangle {
        let linear_counter = if self.reload_linear {
            self.linear_counter_start
        } else if self.linear_counter > 0 {
            (self.linear_counter - 1) as u8
        } else {
            self.linear_counter
        };
        Triangle {
            linear_counter,
            reload_linear: if !self.control { false } else { self.reload_linear },
            ..self
        }
    }

    pub open spec fn with_enable(self, enable: bool) -> Triangle {
        Triangle { enable, length_counter: if enable { self.length_counter } else { 0 }, ..self }
    }

    pub open spec fn with_r0(self, data: u8) -> Triangle {
        Triangle {
            linear_counter_start: data & 0x7F,
            control: (data >> 7) & 0x1 == 1,
            counter_halt: (data >> 7) & 0x1 == 1,
            ..self
        }
    }

    pub open spec fn with_r2(self, data: u8) -> Triangle {
        Triangle { timer_start: (self.timer_start & 0xFF00) | (data as u16), ..self }
    }

    pub open spec fn with_r3(self, data: u8) -> Triangle {
        Triangle {
            timer_start: (self.timer_start & 0x00FF) | (((data & 0x7) as u16) << 8),
            length_counter: if self.enable {
                LENGTH_VALUES[(data >> 3) as int]
            } else {
                self.length_counter
            },
            reload_linear: true,
            ..self
        }
    }

    pub fn tick(&mut self)
        requires
            old(self).wf(),
        ensures
            *final(self) == old(self).ticked(),
            final(self).wf(),
    {
        if !self.enable || self.length_counter == 0 || self.linear_counter == 0 {
            return;
        }
        if self.timer == 0 {
            self.timer = self.timer_start;
            if self.wave_ptr == 0 {
                self.wave_ptr = 31;
            } else {
                self.wave_ptr -= 1;
            }
        } else {
            self.timer -= 1;
        }
        proof {
            lemma_wave_levels(self.wave_ptr);
        }
        self.output = TRIANGLE_WAVE[self.wave_ptr];
    }

    pub fn tick_half_frame(&mut self)
        requires
            old(self).wf(),
        ensures
            *final(self) == old(self).half_frame_ticked(),
            final(self).wf(),
    {
        if !self.counter_halt && self.length_counter > 0 {
            self.length_counter -= 1;
        }
    }

    pub fn tick_quarter_frame(&mut self)
        requires
            old(self).wf(),
        ensures
            *final(self) == old(self).quarter_frame_ticked(),
            final(self).wf(),
    {
        if self.reload_linear {
            self.linear_counter = self.linear_counter_start;
        } else if self.linear_counter > 0 {
            self.linear_counter -= 1;
        }
        if !self.control {
            self.reload_linear = false;
        }
    }

    pub fn set_enable(&mut self, enable: bool)
        requires
            old(self).wf(),
        ensures
            *final(self) == old(self).with_enable(enable),
            final(self).wf(),
    {
        self.enable = enable;
        if !enable {
            self.length_counter = 0;
        }
    }

    pub fn write_r0(&mut self, data: u8)
        requires
            old(self).wf(),
        ensures
            *final(self) == old(self).with_r0(data),
            final(self).wf(),
    {
        proof {
            lemma_byte_fields(data);
        }
        self.linear_counter_start = data & 0x7F;
        self.control = (data >> 7) & 0x1 == 1;
        self.counter_halt = (data >> 7) & 0x1 == 1;
    }

    pub fn write_r2(&mut self, data: u8)
        requires
            old(self).wf(),
        ensures
            *final(self) == old(self).with_r2(data),
            final(self).wf(),
    {
        proof {
            lemma_timer_bytes(self.timer_start, data);
        }
        self.timer_start = (self.timer_start & 0xFF00) | (data as u16);
    }

    pub fn write_r3(&mut self, data: u8)
        requires
            old(self).wf(),
        ensures
            *final(self) == old(self).with_r3(data),
            final(self).wf(),
    {
        proof {
            lemma_timer_bytes(self.timer_start, data);
            lemma_byte_fields(data);
        }
        self.timer_start = (self.timer_start & 0x00FF) | (((data & 0x7) as u16) << 8);
        if self.enable {
            let length_idx = data >> 3;
            self.length_counter = LENGTH_VALUES[length_idx as usize];
        }
        self.reload_linear = true;
    }
}

impl Default for Triangle {
    fn default() -> (r: Triangle)
        ensures
            r == Triangle::zeroed(),
    {
        Triangle {
            timer: 0,
            enable: false,
            length_counter: 0,
            wave_ptr: 0,
            linear_counter: 0,
            reload_linear: false,
            output: 0,
            linear_counter_start: 0,
            control: false,
            counter_halt: false,
            timer_start: 0,
        }
    }
}

/// Every level of the triangle wave is at most 15.
pub proof fn lemma_wave_levels(i: usize)
    requires
        i < 32,
    ensures
        TRIANGLE_WAVE[i as int] <= 15,
{
    assert(TRIANGLE_WAVE@ == seq![
        15u8, 14, 13, 12, 11, 10, 9, 8, 7, 6, 5, 4, 3, 2, 1, 0, 0, 1, 2, 3, 4, 5, 6, 7, 8, 9, 10, 11,
        12, 13, 14, 15,
    ]);
}

} // verus!
