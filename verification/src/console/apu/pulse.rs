use vstd::prelude::*;
use crate::console::apu::common::Envelope;
use crate::console::apu::LENGTH_VALUES;

verus! {

pub const DUTY_TABLES: [[u8; 8]; 4] = [
    [0, 0, 0, 0, 0, 0, 0, 1],
    [0, 0, 0, 0, 0, 0, 1, 1],
    [0, 0, 0, 0, 1, 1, 1, 1],
    [1, 1, 1, 1, 1, 1, 0, 0],
];

/// Duty-cycle sequencer output for a duty setting and sequencer step.
pub open spec fn duty_bit(duty: usize, step: usize) -> u8 {
    DUTY_TABLES[duty as int][step as int]
}

/// Square-wave channel with envelope, sweep unit and length counter.
#[derive(Clone, Copy)]
pub struct Pulse {
    pub idx: u8,
    pub timer: u16,
    pub period: u16,
    pub target_period: u16,
    pub sequencer: usize,
    pub sweep_period: i8,
    pub sw_reload: bool,
    pub enable: bool,
    pub env: Envelope,
    pub length_counter: u8,
    pub output: u8,
    pub volume: u8,
    pub const_vol: bool,
    pub counter_halt: bool,
    pub duty: usize,
    pub sw_shift: u8,
    pub sw_negate: bool,
    pub sw_period: u8,
    pub sw_enable: bool,
    pub timer_start: u16,
}

impl Pulse {
    pub open spec fn wf(&self) -> bool {
        &&& self.sequencer < 8
        &&& self.duty < 4
        &&& self.sw_shift < 8
        &&& self.volume <= 15
        &&& self.env.wf()
        &&& self.period <= 0x7FF
        &&& self.timer_start <= 0x7FF
        &&& 0 <= self.sweep_period <= 7
        &&& self.sw_period <= 7
        &&& self.output <= 15
    }

    /// The period the sweep unit is heading for.
    pub open spec fn sweep_target(self) -> u16 {
        let shifted = self.period >> self.sw_shift;
        if self.sw_negate {
            if self.idx == 0 {
                // one's-complement negation; wraps around when nothing is left to subtract
                if self.period > shifted {
                    (self.period - shifted - 1) as u16
                } else {
                    0xFFFF
                }
            } else {
                (self.period - shifted) as u16
            }
        } else {
            (self.period + shifted) as u16
        }
    }

    /// One timer clock.
    pub open spec fn ticked(self) -> Pulse {
        if !self.enable {
            Pulse { output: 0, ..self }
        } else {
            let target = self.sweep_target();
            let volume = if self.length_counter == 0 || self.period < 8 || target > 0x7FF {
                0u8
            } else if self.const_vol {
                self.volume
            } else {
                self.env.value
            };
            let timer = if self.timer == 0 { self.period } else { (self.timer - 1) as u16 };
            let sequencer = if self.timer == 0 {
                if self.sequencer == 0 { 7usize } else { (self.sequencer - 1) as usize }
            } else {
                self.sequencer
            };
            Pulse {
                target_period: target,
                timer,
                sequencer,
                output: (volume * duty_bit(self.duty, sequencer)) as u8,
                ..self
            }
        }
    }

    /// One half-frame clock: sweep divider and length counter.
    pub open spec fn half_frame_ticked(self) -> Pulse {
        let sweep_period = self.sweep_period - 1;
        let period = if sweep_period < 0 && self.sw_enable && self.sw_shift > 0 && self.period >= 8
            && self.target_period <= 0x7FF {
            self.target_period
        } else {
            self.period
        };
        let reload = sweep_period < 0 || self.sw_reload;
        Pulse {
            sweep_period: if reload { self.sw_period as i8 } else { sweep_period as i8 },
            sw_reload: if reload { false } else { self.sw_reload },
            period,
            length_counter: if !self.counter_halt && self.length_counter > 0 {
                (self.length_counter - 1) as u8
            } else {
                self.length_counter
            },
            ..self
        }
    }

    pub open spec fn with_enable(self, enable: bool) -> Pulse {
        Pulse { enable, length_counter: if enable { self.length_counter } else { 0 }, ..self }
    }

    pub open spec fn with_r0(self, data: u8) -> Pulse {
        Pulse {
            volume: data & 0xF,
            const_vol: (data >> 4) & 0x1 == 1,
            counter_halt: (data >> 5) & 0x1 == 1,
            env: Envelope { divider_start: data & 0xF, looping: (data >> 5) & 0x1 == 1, ..self.env },
            duty: (data >> 6) as usize,
            ..self
        }
    }

    pub open spec fn with_r1(self, data: u8) -> Pulse {
        Pulse {
            sw_shift: data & 0x7,
            sw_negate: (data >> 3) & 0x1 == 1,
            sw_enable: (data >> 7) & 0x1 == 1,
            sw_period: (data >> 4) & 0x7,
            sw_reload: true,
            ..self
        }
    }

    pub open spec fn with_r2(self, data: u8) -> Pulse {
        let timer_start = (self.timer_start & 0xFF00) | (data as u16);
        Pulse { timer_start, period: timer_start, ..self }
    }

    pub open spec fn with_r3(self, data: u8) -> Pulse {
        let timer_start = (self.timer_start & 0x00FF) | (((data & 0x7) as u16) << 8);
        Pulse {
            timer_start,
            period: timer_start,
            sequencer: 0,
            length_counter: if self.enable {
                LENGTH_VALUES[(data >> 3) as int]
            } else {
                self.length_counter
            },
            env: Envelope { reset: true, ..self.env },
            ..self
        }
    }

    /// Power-on state of the channel with the given index (0 or 1).
    pub open spec fn new_spec(idx: u8) -> Pulse {
        Pulse {
            idx,
            timer: 0,
            period: 0,
            target_period: 0,
            sequencer: 0,
            sweep_period: 0,
            sw_reload: false,
            enable: false,
            env: Envelope::zeroed(),
            length_counter: 0,
            output: 0,
            volume: 0,
            const_vol: false,
            counter_halt: false,
            duty: 0,
            sw_shift: 0,
            sw_negate: false,
            sw_period: 0,
            sw_enable: false,
            timer_start: 0,
        }
    }

    pub fn new(idx: u8) -> (r: Self)
        ensures
            r.wf(),
            r == Pulse::new_spec(idx),
    {
        Pulse {
            idx,
            timer: 0,
            period: 0,
            target_period: 0,
            sequencer: 0,
            sweep_period: 0,
            sw_reload: false,
            enable: false,
            env: Envelope::new(),
            length_counter: 0,
            output: 0,
            volume: 0,
            const_vol: false,
            counter_halt: false,
            duty: 0,
            sw_shift: 0,
            sw_negate: false,
            sw_period: 0,
            sw_enable: false,
            timer_start: 0,
        }
    }

    pub fn tick(&mut self)
        requires
            old(self).wf(),
        ensures
            *final(self) == old(self).ticked(),
            final(self).wf(),
    {
        if !self.enable {
            self.output = 0;
            return;
        }
        proof {
            lemma_pulse_bits(self.period, self.sw_shift);
        }
        let period_shifted = self.period >> self.sw_shift;
        self.target_period = if self.sw_negate {
            if self.idx == 0 {
                if self.period > period_shifted {
                    self.period - period_shifted - 1
                } else {
                    0xFFFF
                }
            } else {
                self.period - period_shifted
            }
        } else {
            self.period + period_shifted
        };
        let volume = if self.length_counter == 0 || self.period < 8 || self.target_period > 0x7FF {
            0
        } else if self.const_vol {
            self.volume
        } else {
            self.env.value
        };
        if self.timer == 0 {
            self.timer = self.period;
            if self.sequencer == 0 {
                self.sequencer = 7;
            } else {
                self.sequencer -= 1;
            }
        } else {
            self.timer -= 1;
        }
        let bit = DUTY_TABLES[self.duty][self.sequencer];
        proof {
            lemma_duty_bits(self.duty, self.sequencer);
            assert(volume * bit <= 15) by (nonlinear_arith)
                requires
                    volume <= 15,
                    bit <= 1,
            ;
        }
        self.output = volume * bit;
    }

    pub fn tick_half_frame(&mut self)
        requires
            old(self).wf(),
        ensures
            *final(self) == old(self).half_frame_ticked(),
            final(self).wf(),
    {
        self.sweep_period -= 1;
        if self.sweep_period < 0 && self.sw_enable && self.sw_shift > 0 && self.period >= 8
            && self.target_period <= 0x7FF {
            self.period = self.target_period;
        }
        if self.sweep_period < 0 || self.sw_reload {
            self.sw_reload = false;
            self.sweep_period = self.sw_period as i8;
        }
        if !self.counter_halt && self.length_counter > 0 {
            self.length_counter -= 1;
        }
    }

    pub fn tick_quarter_frame(&mut self)
        requires
            old(self).wf(),
        ensures
            *final(self) == (Pulse { env: old(self).env.ticked(), ..*old(self) }),
            final(self).wf(),
    {
        self.env.tick();
    }

    pub fn set_enable(&mut self, enable: bool)
        requires
            old(self).wf(),
        ensures
            *final(self) == old(self).with_enable(enable),
            final(self).wf(),
    {
        self.enable = enable;
        if !enable {
            self.length_counter = 0;
        }
    }

    pub fn write_r0(&mut self, data: u8)
        requires
            old(self).wf(),
        ensures
            *final(self) == old(self).with_r0(data),
            final(self).wf(),
    {
        proof {
            lemma_byte_fields(data);
        }
        self.volume = data & 0xF;
        self.const_vol = (data >> 4) & 0x1 == 1;
        self.counter_halt = (data >> 5) & 0x1 == 1;
        self.env.divider_start = self.volume;
        self.env.looping = (data >> 5) & 0x1 == 1;
        self.duty = (data >> 6) as usize;
    }

    pub fn write_r1(&mut self, data: u8)
        requires
            old(self).wf(),
        ensures
            *final(self) == old(self).with_r1(data),
            final(self).wf(),
    {
        proof {
            lemma_byte_fields(data);
        }
        self.sw_shift = data & 0x7;
        self.sw_negate = (data >> 3) & 0x1 == 1;
        self.sw_enable = (data >> 7) & 0x1 == 1;
        self.sw_period = (data >> 4) & 0x7;
        self.sw_reload = true;
    }

    pub fn write_r2(&mut self, data: u8)
        requires
            old(self).wf(),
        ensures
            *final(self) == old(self).with_r2(data),
            final(self).wf(),
    {
        proof {
            lemma_timer_bytes(self.timer_start, data);
        }
        self.timer_start = (self.timer_start & 0xFF00) | (data as u16);
        self.period = self.timer_start;
    }

    pub fn write_r3(&mut self, data: u8)
        requires
            old(self).wf(),
        ensures
            *final(self) == old(self).with_r3(data),
            final(self).wf(),
    {
        proof {
            lemma_timer_bytes(self.timer_start, data);
            lemma_byte_fields(data);
        }
        self.timer_start = (self.timer_start & 0x00FF) | (((data & 0x7) as u16) << 8);
        self.period = self.timer_start;
        self.sequencer = 0;
        if self.enable {
            let length_idx = data >> 3;
            self.length_counter = LENGTH_VALUES[length_idx as usize];
        }
        self.env.reset = true;
    }
}

/// The sweep unit moves the period in the direction the negate flag asks for: without it
/// the target is the period plus its shifted copy (never below the period); with it the
/// target is below the period by the same amount (one more for the first channel, which
/// negates in one's complement). Flipping only the flag moves the target to the mirror
/// image around the period.
pub proof fn lemma_sweep_direction(p: Pulse)
    requires
        p.wf(),
    ensures
        ({
            let up = Pulse { sw_negate: false, ..p }.sweep_target();
            let down = Pulse { sw_negate: true, ..p }.sweep_target();
            let shifted = p.period >> p.sw_shift;
            &&& up >= p.period
            &&& up - p.period == shifted
            &&& p.idx != 0 ==> down <= p.period && up + down == 2 * p.period
            &&& p.idx == 0 && shifted < p.period ==> down < p.period && up + down == 2 * p.period - 1
        }),
{
    lemma_pulse_bits(p.period, p.sw_shift);
}

/// Every duty-table entry is 0 or 1.
pub proof fn lemma_duty_bits(duty: usize, step: usize)
    requires
        duty < 4,
        step < 8,
    ensures
        duty_bit(duty, step) <= 1,
{
    assert(DUTY_TABLES[0]@ == seq![0u8, 0, 0, 0, 0, 0, 0, 1]);
    assert(DUTY_TABLES[1]@ == seq![0u8, 0, 0, 0, 0, 0, 1, 1]);
    assert(DUTY_TABLES[2]@ == seq![0u8, 0, 0, 0, 1, 1, 1, 1]);
    assert(DUTY_TABLES[3]@ == seq![1u8, 1, 1, 1, 1, 1, 0, 0]);
}

/// Bounds of the sweep arithmetic.
pub proof fn lemma_pulse_bits(period: u16, shift: u8)
    by (bit_vector)
    requires
        period <= 0x7FF,
        shift < 8,
    ensures
        (period >> shift) <= period,
{
}

/// Field extraction from a register byte stays within the field width.
pub proof fn lemma_byte_fields(data: u8)
    by (bit_vector)
    ensures
        data & 0xF <= 15,
        data & 0x7 <= 7,
        (data >> 4) & 0x7 <= 7,
        (data >> 6) < 4,
        (data >> 3) < 32,
        data & 0x7F <= 0x7F,
{
}

/// Combining the low and high timer bytes keeps an 11-bit timer.
pub proof fn lemma_timer_bytes(timer: u16, data: u8)
    by (bit_vector)
    requires
        timer <= 0x7FF,
    ensures
        (timer & 0xFF00) | (data as u16) <= 0x7FF,
        (timer & 0x00FF) | (((data & 0x7) as u16) << 8) <= 0x7FF,
{
}

} // verus!
