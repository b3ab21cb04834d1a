use vstd::prelude::*;
use crate::apu::common::{Envelope, LengthCounter};
use crate::apu::LENGTH_VALUES;
use crate::bits::lemma_masks;
use crate::console::apu::pulse::{
    DUTY_TABLES, duty_bit, lemma_byte_fields, lemma_duty_bits, lemma_pulse_bits,
};

verus! {

/// The 11-bit timer value that a low byte and the low three bits of a high byte make.
pub proof fn lemma_timer_join(lo: u8, hi: u8)
    by (bit_vector)
    ensures
        ((lo as u16) | (((hi & 0x7) as u16) << 8)) <= 0x7FF,
{
}

/// Square-wave channel; its settings are read from the four raw registers.
#[derive(Clone, Copy)]
pub struct Pulse {
    pub r0: u8,
    pub r1: u8,
    pub r2: u8,
    pub r3: u8,
    pub idx: u8,
    pub timer: u16,
    pub period: u16,
    pub target_period: u16,
    pub sequencer: usize,
    pub sweep_period: i8,
    pub sw_reload: bool,
    pub enable: bool,
    pub env: Envelope,
    pub lc: LengthCounter,
    pub sample: u8,
}

impl Pulse {
    pub open spec fn wf(&self) -> bool {
        &&& self.sequencer < 8
        &&& self.env.wf()
        &&& self.period <= 0x7FF
        &&& 0 <= self.sweep_period <= 7
        &&& self.sample <= 15
    }

    // ---- register fields ----

    pub open spec fn spec_volume(self) -> u8 {
        self.r0 & 0xF
    }

    pub open spec fn spec_const_vol(self) -> bool {
        (self.r0 >> 4) & 1 == 1
    }

    pub open spec fn spec_env_loop(self) -> bool {
        (self.r0 >> 5) & 1 == 1
    }

    pub open spec fn spec_duty(self) -> usize {
        (self.r0 >> 6) as usize
    }

    pub open spec fn spec_sw_shift(self) -> u8 {
        self.r1 & 0x7
    }

    pub open spec fn spec_sw_negate(self) -> bool {
        (self.r1 >> 3) & 1 == 1
    }

    pub open spec fn spec_sw_period(self) -> u8 {
        (self.r1 >> 4) & 0x7
    }

    pub open spec fn spec_sw_enable(self) -> bool {
        (self.r1 >> 7) & 1 == 1
    }

    /// The 11-bit timer reload value: the third register and the low three bits of the
    /// fourth.
    pub open spec fn spec_timer(self) -> u16 {
        (self.r2 as u16) | (((self.r3 & 0x7) as u16) << 8)
    }

    pub open spec fn spec_counter_load(self) -> u8 {
        self.r3 >> 3
    }

    /// Constant volume, or the envelope's period.
    pub fn volume(&self) -> (r: u8)
        ensures
            r == self.spec_volume(),
    {
        self.r0 & 0xF
    }

    pub fn envelope(&self) -> (r: u8)
        ensures
            r == self.spec_volume(),
    {
        self.r0 & 0xF
    }

    pub fn const_vol(&self) -> (r: bool)
        ensures
            r == self.spec_const_vol(),
    {
        (self.r0 >> 4) & 1 == 1
    }

    pub fn env_loop(&self) -> (r: bool)
        ensures
            r == self.spec_env_loop(),
    {
        (self.r0 >> 5) & 1 == 1
    }

    pub fn counter_halt(&self) -> (r: bool)
        ensures
            r == self.spec_env_loop(),
    {
        (self.r0 >> 5) & 1 == 1
    }

    pub fn duty(&self) -> (r: usize)
        ensures
            r == self.spec_duty(),
            r < 4,
    {
        proof {
            lemma_byte_fields(self.r0);
        }
        (self.r0 >> 6) as usize
    }

    pub fn sw_shift(&self) -> (r: u8)
        ensures
            r == self.spec_sw_shift(),
    {
        self.r1 & 0x7
    }

    pub fn sw_negate(&self) -> (r: bool)
        ensures
            r == self.spec_sw_negate(),
    {
        (self.r1 >> 3) & 1 == 1
    }

    pub fn sw_period(&self) -> (r: u8)
        ensures
            r == self.spec_sw_period(),
    {
        (self.r1 >> 4) & 0x7
    }

    pub fn sw_enable(&self) -> (r: bool)
        ensures
            r == self.spec_sw_enable(),
    {
        (self.r1 >> 7) & 1 == 1
    }

    pub fn timer_value(&self) -> (r: u16)
        ensures
            r == self.spec_timer(),
            r <= 0x7FF,
    {
        proof {
            lemma_timer_join(self.r2, self.r3);
        }
        (self.r2 as u16) | (((self.r3 & 0x7) as u16) << 8)
    }

    pub fn counter_load(&self) -> (r: u8)
        ensures
            r == self.spec_counter_load(),
            r < 32,
    {
        proof {
            lemma_byte_fields(self.r3);
        }
        self.r3 >> 3
    }

    // ---- behaviour ----

    /// The period the sweep unit is heading for (the first channel negates in one's
    /// complement; the subtraction wraps around when nothing is left to subtract).
    pub open spec fn sweep_target(self) -> u16 {
        let shifted = self.period >> self.spec_sw_shift();
        if self.spec_sw_negate() {
            if self.idx == 0 {
                if self.period > shifted {
                    (self.period - shifted - 1) as u16
                } else {
                    0xFFFF
                }
            } else {
                (self.period - shifted) as u16
            }
        } else {
            (self.period + shifted) as u16
        }
    }

    /// One timer clock.
    pub open spec fn ticked(self) -> Pulse {
        let target = self.sweep_target();
        if !self.enable || self.lc.muting || self.period < 8 || target > 0x7FF {
            Pulse { target_period: target, sample: 0, ..self }
        } else {
            let timer = if self.timer == 0 { self.period } else { (self.timer - 1) as u16 };
            let sequencer = if self.timer == 0 {
                if self.sequencer == 0 { 7usize } else { (self.sequencer - 1) as usize }
            } else {
                self.sequencer
            };
            let volume = if self.spec_const_vol() { self.spec_volume() } else { self.env.value };
            Pulse {
                target_period: target,
                timer,
                sequencer,
                sample: (volume * duty_bit(self.spec_duty(), sequencer)) as u8,
                ..self
            }
        }
    }

    /// One half-frame clock: sweep divider and length counter.
    pub open spec fn half_frame_ticked(self) -> Pulse {
        let sweep_period = self.sweep_period - 1;
        let period = if sweep_period < 0 && self.spec_sw_enable() && self.spec_sw_shift() > 0
            && self.period >= 8 && self.target_period <= 0x7FF {
            self.target_period
        } else {
            self.period
        };
        let reload = sweep_period < 0 || self.sw_reload;
        Pulse {
            sweep_period: if reload { self.spec_sw_period() as i8 } else { sweep_period as i8 },
            sw_reload: if reload { false } else { self.sw_reload },
            period,
            lc: if !self.spec_env_loop() { self.lc.ticked() } else { self.lc },
            ..self
        }
    }

    pub open spec fn with_enable(self, enable: bool) -> Pulse {
        Pulse {
            enable,
            lc: if enable { self.lc } else { LengthCounter { counter: 0, ..self.lc } },
            ..self
        }
    }

    pub open spec fn with_r0(self, data: u8) -> Pulse {
        Pulse {
            r0: data,
            env: Envelope { divider_start: data & 0xF, looping: (data >> 5) & 1 == 1, ..self.env },
            ..self
        }
    }

    pub open spec fn with_r1(self, data: u8) -> Pulse {
        Pulse { r1: data, sw_reload: true, ..self }
    }

    pub open spec fn with_r2(self, data: u8) -> Pulse {
        Pulse { r2: data, period: (Pulse { r2: data, ..self }).spec_timer(), ..self }
    }

    pub open spec fn with_r3(self, data: u8) -> Pulse {
        Pulse {
            r3: data,
            period: (Pulse { r3: data, ..self }).spec_timer(),
            sequencer: 0,
            lc: if self.enable {
                LengthCounter { counter: LENGTH_VALUES[(data >> 3) as int], ..self.lc }
            } else {
                self.lc
            },
            env: Envelope { reset: true, ..self.env },
            ..self
        }
    }

    pub open spec fn new_spec(idx: u8) -> Pulse {
        Pulse {
            r0: 0,
            r1: 0,
            r2: 0,
            r3: 0,
            idx,
            timer: 0,
            period: 0,
            target_period: 0,
            sequencer: 0,
            sweep_period: 0,
            sw_reload: false,
            enable: false,
            env: Envelope::zeroed(),
            lc: LengthCounter::zeroed(),
            sample: 0,
        }
    }

    pub fn new(idx: u8) -> (r: Pulse)
        ensures
            r == Pulse::new_spec(idx),
            r.wf(),
    {
        Pulse {
            r0: 0,
            r1: 0,
            r2: 0,
            r3: 0,
            idx,
            timer: 0,
            period: 0,
            target_period: 0,
            sequencer: 0,
            sweep_period: 0,
            sw_reload: false,
            enable: false,
            env: Envelope::new(),
            lc: LengthCounter::new(),
            sample: 0,
        }
    }

    pub fn tick(&mut self)
        requires
            old(self).wf(),
        ensures
            *final(self) == old(self).ticked(),
            final(self).wf(),
    {
        let shift = self.sw_shift();
        proof {
            lemma_masks();
            lemma_pulse_bits(self.period, shift);
        }
        let period_shifted = self.period >> shift;
        self.target_period = if self.sw_negate() {
            if self.idx == 0 {
                if self.period > period_shifted {
                    self.period - period_shifted - 1
                } else {
                    0xFFFF
                }
            } else {
                self.period - period_shifted
            }
        } else {
            self.period + period_shifted
        };
        if !self.enable || self.lc.muting || self.period < 8 || self.target_period > 0x7FF {
            self.sample = 0;
        } else {
            if self.timer == 0 {
                self.timer = self.period;
                if self.sequencer == 0 {
                    self.sequencer = 7;
                } else {
                    self.sequencer -= 1;
                }
            } else {
                self.timer -= 1;
            }
            let volume = if self.const_vol() {
                self.volume()
            } else {
                self.env.value
            };
            proof {
                lemma_byte_fields(self.r0);
            }
            let duty = self.duty();
            let bit = DUTY_TABLES[duty][self.sequencer];
            proof {
                lemma_duty_bits(duty, self.sequencer);
                assert(volume * bit <= 15) by (nonlinear_arith)
                    requires
                        volume <= 15,
                        bit <= 1,
                ;
            }
            self.sample = volume * bit;
        }
    }

    pub fn tick_half_frame(&mut self)
        requires
            old(self).wf(),
        ensures
            *final(self) == old(self).half_frame_ticked(),
            final(self).wf(),
    {
        self.sweep_period -= 1;
        if self.sweep_period < 0 && self.sw_enable() && self.sw_shift() > 0 && self.period >= 8
            && self.target_period <= 0x7FF {
            self.period = self.target_period;
        }
        if self.sweep_period < 0 || self.sw_reload {
            self.sw_reload = false;
            proof {
                lemma_byte_fields(self.r1);
            }
            self.sweep_period = self.sw_period() as i8;
        }
        if !self.counter_halt() {
            self.lc.tick();
        }
    }

    pub fn tick_quarter_frame(&mut self)
        requires
            old(self).wf(),
        ensures
            *final(self) == (Pulse { env: old(self).env.ticked(), ..*old(self) }),
            final(self).wf(),
    {
        self.env.tick();
    }

    pub fn set_enable(&mut self, enable: bool)
        ensures
            *final(self) == old(self).with_enable(enable),
            old(self).wf() ==> final(self).wf(),
    {
        self.enable = enable;
        if !enable {
            self.lc.counter = 0;
        }
    }

    pub fn write_r0(&mut self, data: u8)
        ensures
            *final(self) == old(self).with_r0(data),
            old(self).wf() ==> final(self).wf(),
    {
        self.r0 = data;
        self.env.divider_start = self.envelope();
        self.env.looping = self.env_loop();
    }

    pub fn write_r1(&mut self, data: u8)
        ensures
            *final(self) == old(self).with_r1(data),
            old(self).wf() ==> final(self).wf(),
    {
        self.r1 = data;
        self.sw_reload = true;
    }

    pub fn write_r2(&mut self, data: u8)
        ensures
            *final(self) == old(self).with_r2(data),
            old(self).wf() ==> final(self).wf(),
    {
        self.r2 = data;
        self.period = self.timer_value();
    }

    pub fn write_r3(&mut self, data: u8)
        ensures
            *final(self) == old(self).with_r3(data),
            old(self).wf() ==> final(self).wf(),
    {
        self.r3 = data;
        self.period = self.timer_value();
        self.sequencer = 0;
        if self.enable {
            self.lc.counter = LENGTH_VALUES[self.counter_load() as usize];
        }
        self.env.reset = true;
    }
}

/// The sweep unit moves the period in the direction the negate bit asks for: without it
/// the target is the period plus its shifted copy; with it the target is below the
/// period by the shifted copy (one more for the first channel, which negates in one's
/// complement).
pub proof fn lemma_sweep_direction(p: Pulse)
    requires
        p.wf(),
    ensures
        ({
            let shifted = p.period >> p.spec_sw_shift();
            let t = p.sweep_target();
            &&& !p.spec_sw_negate() ==> t >= p.period && t - p.period == shifted
            &&& p.spec_sw_negate() && p.idx != 0 ==> t <= p.period && p.period - t == shifted
            &&& p.spec_sw_negate() && p.idx == 0 && shifted < p.period ==> t < p.period && p.period
                - t == shifted + 1
        }),
{
    lemma_masks();
    lemma_pulse_bits(p.period, p.spec_sw_shift());
}

} // verus!
