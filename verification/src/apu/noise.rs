use vstd::prelude::*;
use crate::apu::common::{Envelope, LengthCounter};
use crate::apu::LENGTH_VALUES;
use crate::console::apu::noise::NOISE_TIMER_VALUES;
use crate::console::apu::pulse::lemma_byte_fields;

verus! {

/// Pseudo-random noise channel; its settings are read from the raw registers.
#[derive(Clone, Copy)]
pub struct Noise {
    pub r0: u8,
    pub r2: u8,
    pub r3: u8,
    pub timer: u16,
    pub enable: bool,
    pub shift_register: u16,
    pub lc: LengthCounter,
    pub env: Envelope,
}

/// The shift register after one step: shifted right, with the feedback bit (bit 0 xor
/// bit 6 in short mode, bit 0 xor bit 1 otherwise) entering at bit 14.
pub open spec fn shifted_noise(reg: u16, mode: bool) -> u16 {
    let feedback = if mode { (reg ^ (reg >> 6)) & 0x1 } else { (reg ^ (reg >> 1)) & 0x1 };
    (reg >> 1) | (feedback << 14)
}

impl Noise {
    pub open spec fn wf(&self) -> bool {
        self.env.wf()
    }

    pub open spec fn spec_volume(self) -> u8 {
        self.r0 & 0xF
    }

    pub open spec fn spec_const_vol(self) -> bool {
        (self.r0 >> 4) & 1 == 1
    }

    pub open spec fn spec_env_loop(self) -> bool {
        (self.r0 >> 5) & 1 == 1
    }

    pub open spec fn spec_mode(self) -> bool {
        (self.r2 >> 7) & 1 == 1
    }

    pub open spec fn spec_period(self) -> u8 {
        self.r2 & 0xF
    }

    pub open spec fn spec_counter_load(self) -> u8 {
        self.r3 >> 3
    }

    pub fn volume(&self) -> (r: u8)
        ensures
            r == self.spec_volume(),
            r <= 15,
    {
        proof {
            lemma_byte_fields(self.r0);
        }
        self.r0 & 0xF
    }

    pub fn envelope(&self) -> (r: u8)
        ensures
            r == self.spec_volume(),
    {
        self.r0 & 0xF
    }

    pub fn const_vol(&self) -> (r: bool)
        ensures
            r == self.spec_const_vol(),
    {
        (self.r0 >> 4) & 1 == 1
    }

    pub fn env_loop(&self) -> (r: bool)
        ensures
            r == self.spec_env_loop(),
    {
        (self.r0 >> 5) & 1 == 1
    }

    pub fn counter_halt(&self) -> (r: bool)
        ensures
            r == self.spec_env_loop(),
    {
        (self.r0 >> 5) & 1 == 1
    }

    pub fn mode(&self) -> (r: bool)
        ensures
            r == self.spec_mode(),
    {
        (self.r2 >> 7) & 1 == 1
    }

    pub fn period(&self) -> (r: u8)
        ensures
            r == self.spec_period(),
            r < 16,
    {
        proof {
            lemma_byte_fields(self.r2);
        }
        self.r2 & 0xF
    }

    pub fn counter_load(&self) -> (r: u8)
        ensures
            r == self.spec_counter_load(),
            r < 32,
    {
        proof {
            lemma_byte_fields(self.r3);
        }
        self.r3 >> 3
    }

    /// The channel after one timer clock.
    pub open spec fn ticked(self) -> Noise {
        if !self.enable {
            self
        } else if self.timer == 0 {
            Noise {
                timer: NOISE_TIMER_VALUES[self.spec_period() as int],
                shift_register: shifted_noise(self.shift_register, self.spec_mode()),
                ..self
            }
        } else {
            Noise { timer: (self.timer - 1) as u16, ..self }
        }
    }

    /// The level the channel outputs once it has been clocked into state `self`.
    pub open spec fn level(self) -> u8 {
        if !self.enable {
            0
        } else if self.shift_register & 0x1 == 0 && !self.lc.muting {
            if self.spec_const_vol() { self.spec_volume() } else { self.env.value }
        } else {
            0
        }
    }

    pub open spec fn with_enable(self, enable: bool) -> Noise {
        Noise {
            enable,
            lc: if enable { self.lc } else { LengthCounter { counter: 0, ..self.lc } },
            ..self
        }
    }

    pub open spec fn with_r0(self, data: u8) -> Noise {
        Noise {
            r0: data,
            env: Envelope { divider_start: data & 0xF, looping: (data >> 5) & 1 == 1, ..self.env },
            ..self
        }
    }

    pub open spec fn with_r2(self, data: u8) -> Noise {
        Noise { r2: data, timer: NOISE_TIMER_VALUES[(data & 0xF) as int], ..self }
    }

    pub open spec fn with_r3(self, data: u8) -> Noise {
        Noise {
            r3: data,
            lc: if self.enable {
                LengthCounter { counter: LENGTH_VALUES[(data >> 3) as int], ..self.lc }
            } else {
                self.lc
            },
            env: Envelope { reset: true, ..self.env },
            ..self
        }
    }

    pub open spec fn half_frame_ticked(self) -> Noise {
        Noise { lc: if !self.spec_env_loop() { self.lc.ticked() } else { self.lc }, ..self }
    }

    pub open spec fn new_spec() -> Noise {
        Noise {
            r0: 0,
            r2: 0,
            r3: 0,
            timer: 0,
            enable: false,
            shift_register: 1,
            lc: LengthCounter::zeroed(),
            env: Envelope::zeroed(),
        }
    }

    pub fn new() -> (r: Noise)
        ensures
            r == Noise::new_spec(),
            r.wf(),
    {
        Noise {
            r0: 0,
            r2: 0,
            r3: 0,
            timer: 0,
            enable: false,
            shift_register: 1,
            lc: LengthCounter::new(),
            env: Envelope::new(),
        }
    }

    /// The level of the channel in its current state.
    pub fn output_level(&self) -> (r: u8)
        requires
            self.wf(),
        ensures
            r == self.level(),
            r <= 15,
    {
        if !self.enable {
            return 0;
        }
        let volume = if self.const_vol() {
            self.volume()
        } else {
            self.env.value
        };
        if self.shift_register & 0x1 == 0 && !self.lc.muting {
            volume
        } else {
            0
        }
    }

    /// Clocks the timer (stepping the shift register when it expires) and returns the
    /// channel's level.
    pub fn tick(&mut self) -> (level: u8)
        requires
            old(self).wf(),
        ensures
            *final(self) == old(self).ticked(),
            level == final(self).level(),
            level <= 15,
            final(self).wf(),
    {
        if !self.enable {
            return 0;
        }
        if self.timer == 0 {
            self.timer = NOISE_TIMER_VALUES[self.period() as usize];
            let feedback = if self.mode() {
                (self.shift_register ^ (self.shift_register >> 6)) & 0x1
            } else {
                (self.shift_register ^ (self.shift_register >> 1)) & 0x1
            };
            self.shift_register = (self.shift_register >> 1) | (feedback << 14);
        } else {
            self.timer -= 1;
        }
        self.output_level()
    }

    pub fn tick_half_frame(&mut self)
        ensures
            *final(self) == old(self).half_frame_ticked(),
    {
        if !self.counter_halt() {
            self.lc.tick();
        }
    }

    pub fn tick_quarter_frame(&mut self)
        requires
            old(self).wf(),
        ensures
            *final(self) == (Noise { env: old(self).env.ticked(), ..*old(self) }),
            final(self).wf(),
    {
        self.env.tick();
    }

    pub fn set_enable(&mut self, enable: bool)
        ensures
            *final(self) == old(self).with_enable(enable),
    {
        self.enable = enable;
        if !enable {
            self.lc.counter = 0;
        }
    }

    pub fn write_r0(&mut self, data: u8)
        ensures
            *final(self) == old(self).with_r0(data),
    {
        self.r0 = data;
        self.env.divider_start = self.envelope();
        self.env.looping = self.env_loop();
    }

    pub fn write_r2(&mut self, data: u8)
        ensures
            *final(self) == old(self).with_r2(data),
    {
        self.r2 = data;
        self.timer = NOISE_TIMER_VALUES[self.period() as usize];
    }

    pub fn write_r3(&mut self, data: u8)
        ensures
            *final(self) == old(self).with_r3(data),
    {
        self.r3 = data;
        if self.enable {
            self.lc.counter = LENGTH_VALUES[self.counter_load() as usize];
        }
        self.env.reset = true;
    }
}

} // verus!
