use vstd::prelude::*;
use crate::console::apu::LENGTH_VALUES;
use crate::console::apu::common::Envelope;
use crate::console::apu::pulse::lemma_byte_fields;

verus! {

pub const NOISE_TIMER_VALUES: [u16; 16] = [
    4, 8, 16, 32, 64, 96, 128, 160, 202, 254, 380, 508, 762, 1016, 2034, 4068,
];

/// Pseudo-random noise channel driven by a 15-bit linear feedback shift register.
#[derive(Clone, Copy)]
pub struct Noise {
    pub timer: u16,
    pub enable: bool,
    pub shift_register: u16,
    pub length_counter: u8,
    pub env: Envelope,
    pub output: u8,
    pub volume: u8,
    pub const_vol: bool,
    pub counter_halt: bool,
    pub mode: bool,
    pub period: u16,
}

impl Noise {
    pub open spec fn wf(&self) -> bool {
        &&& self.volume <= 15
        &&& self.env.wf()
        &&& self.output <= 15
    }

    /// Power-on state: shift register seeded with 1, everything else zero.
    pub open spec fn initial() -> Noise {
        Noise {
            shift_register: 1,
            timer: 0,
            enable: false,
            length_counter: 0,
            env: Envelope::zeroed(),
            output: 0,
            volume: 0,
            const_vol: false,
            counter_halt: false,
            mode: false,
            period: 0,
        }
    }

    /// Next value of the shift register: shift right, feeding bit 0 XOR bit 6 (mode set)
    /// or bit 1 (mode clear) into bit 14.
    pub open spec fn shifted(self) -> u16 {
        let feedback = if self.mode {
            (self.shift_register ^ (self.shift_register >> 6)) & 0x1
        } else {
            (self.shift_register ^ (self.shift_register >> 1)) & 0x1
        };
        (self.shift_register >> 1) | (feedback << 14)
    }

    pub open spec fn ticked(self) -> Noise {
        if !self.enable {
            Noise { output: 0, ..self }
        } else {
            let timer = if self.timer == 0 { self.period } else { (self.timer - 1) as u16 };
            let shift_register = if self.timer == 0 { self.shifted() } else { self.shift_register };
            let volume = if self.const_vol { self.volume } else { self.env.value };
            Noise {
                timer,
                shift_register,
                output: if shift_register & 0x1 == 0 && self.length_counter > 0 {
                    volume
                } else {
                    0
                },
                ..self
            }
        }
    }

    pub open spec fn half_frame_ticked(self) -> Noise {
        if !self.counter_halt && self.length_counter > 0 {
            Noise { length_counter: (self.length_counter - 1) as u8, ..self }
        } else {
            self
        }
    }

    pub open spec fn with_enable(self, enable: bool) -> Noise {
        Noise { enable, length_counter: if enable { self.length_counter } else { 0 }, ..self }
    }

    pub open spec fn with_r0(self, data: u8) -> Noise {
        Noise {
            volume: data & 0xF,
            env: Envelope { divider_start: data & 0xF, looping: (data >> 5) & 0x1 == 1, ..self.env },
            counter_halt: (data >> 5) & 0x1 == 1,
            const_vol: (data >> 4) & 0x1 == 1,
            ..self
        }
    }

    pub open spec fn with_r2(self, data: u8) -> Noise {
        let period = NOISE_TIMER_VALUES[(data & 0xF) as int];
        Noise { mode: (data >> 7) & 0x1 == 1, period, timer: period, ..self }
    }

    pub open spec fn with_r3(self, data: u8) -> Noise {
        Noise {
            length_counter: if self.enable {
                LENGTH_VALUES[(data >> 3) as int]
            } else {
                self.length_counter
            },
            env: Envelope { reset: true, ..self.env },
            ..self
        }
    }

    pub fn tick(&mut self)
        requires
            old(self).wf(),
        ensures
            *final(self) == old(self).ticked(),
            final(self).wf(),
    {
        if !self.enable {
            self.output = 0;
            return;
        }
        if self.timer == 0 {
            self.timer = self.period;
            let feedback = if self.mode {
                (self.shift_register ^ (self.shift_register >> 6)) & 0x1
            } else {
                (self.shift_register ^ (self.shift_register >> 1)) & 0x1
            };
            self.shift_register = (self.shift_register >> 1) | (feedback << 14);
        } else {
            self.timer -= 1;
        }
        let volume = if self.const_vol {
            self.volume
        } else {
            self.env.value
        };
        if self.shift_register & 0x1 == 0 && self.length_counter > 0 {
            self.output = volume;
        } else {
            self.output = 0;
        }
    }

    pub fn tick_half_frame(&mut self)
        requires
            old(self).wf(),
        ensures
            *final(self) == old(self).half_frame_ticked(),
            final(self).wf(),
    {
        if !self.counter_halt && self.length_counter > 0 {
            self.length_counter -= 1;
        }
    }

    pub fn tick_quarter_frame(&mut self)
        requires
            old(self).wf(),
        ensures
            *final(self) == (Noise { env: old(self).env.ticked(), ..*old(self) }),
            final(self).wf(),
    {
        self.env.tick();
    }

    pub fn set_enable(&mut self, enable: bool)
        requires
            old(self).wf(),
        ensures
            *final(self) == old(self).with_enable(enable),
            final(self).wf(),
    {
        self.enable = enable;
        if !enable {
            self.length_counter = 0;
        }
    }

    pub fn write_r0(&mut self, data: u8)
        requires
            old(self).wf(),
        ensures
            *final(self) == old(self).with_r0(data),
            final(self).wf(),
    {
        proof {
            lemma_byte_fields(data);
        }
        self.volume = data & 0xF;
        self.env.divider_start = self.volume;
        self.env.looping = (data >> 5) & 0x1 == 1;
        self.counter_halt = (data >> 5) & 0x1 == 1;
        self.const_vol = (data >> 4) & 0x1 == 1;
    }

    pub fn write_r2(&mut self, data: u8)
        requires
            old(self).wf(),
        ensures
            *final(self) == old(self).with_r2(data),
            final(self).wf(),
    {
        proof {
            lemma_byte_fields(data);
        }
        self.mode = (data >> 7) & 0x1 == 1;
        self.period = NOISE_TIMER_VALUES[(data & 0xF) as usize];
        self.timer = self.period;
    }

    pub fn write_r3(&mut self, data: u8)
        requires
            old(self).wf(),
        ensures
            *final(self) == old(self).with_r3(data),
            final(self).wf(),
    {
        proof {
            lemma_byte_fields(data);
        }
        let counter_load = data >> 3;
        if self.enable {
            self.length_counter = LENGTH_VALUES[counter_load as usize];
        }
        self.env.reset = true;
    }
}

impl Default for Noise {
    fn default() -> (r: Noise)
        ensures
            r == Noise::initial(),
    {
        Noise {
            shift_register: 1,
            timer: 0,
            enable: false,
            length_counter: 0,
            env: Envelope::new(),
            output: 0,
            volume: 0,
            const_vol: false,
            counter_halt: false,
            mode: false,
            period: 0,
        }
    }
}

} // verus!
