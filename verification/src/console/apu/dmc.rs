use vstd::prelude::*;
use crate::console::cartridge::Cartridge;

verus! {

pub const DMC_RATE: [u16; 16] = [
    428, 380, 340, 320, 286, 254, 226, 214, 190, 160, 142, 128, 106, 84, 72, 54,
];

/// Delta-modulation channel: plays 1-bit delta samples fetched from cartridge memory.
#[derive(Clone, Copy)]
pub struct Dmc {
    pub r0: u8,
    pub r1: u8,
    pub r2: u8,
    pub r3: u8,
    pub enable: bool,
    pub timer: u16,
    pub silence: bool,
    pub irq: bool,
    pub sample_buffer: Option<u8>,
    pub start_sample: bool,
    pub sample_addr: u16,
    pub bytes_remaining: u16,
    pub shift_register: u8,
    pub bits_remaining: i8,
    pub output: u8,
}

impl Dmc {
    pub open spec fn wf(&self) -> bool {
        &&& self.output <= 127
        &&& 0 <= self.bits_remaining <= 8
        &&& self.bytes_remaining > 0 ==> self.sample_addr >= 0x8000
    }

    pub open spec fn zeroed() -> Dmc {
        Dmc {
            r0: 0,
            r1: 0,
            r2: 0,
            r3: 0,
            enable: false,
            timer: 0,
            silence: false,
            irq: false,
            sample_buffer: None,
            start_sample: false,
            sample_addr: 0,
            bytes_remaining: 0,
            shift_register: 0,
            bits_remaining: 0,
            output: 0,
        }
    }

    // ---- register fields ----

    pub open spec fn spec_rate(&self) -> usize {
        (self.r0 & 0xF) as usize
    }

    pub open spec fn spec_dmc_loop(&self) -> bool {
        (self.r0 >> 6) & 0x1 == 1
    }

    pub open spec fn spec_irq_enable(&self) -> bool {
        (self.r0 >> 7) & 0x1 == 1
    }

    pub open spec fn spec_direct_load(&self) -> u8 {
        self.r1 & 0x7F
    }

    pub open spec fn spec_sample_start(&self) -> u16 {
        self.r2 as u16
    }

    pub open spec fn spec_sample_len(&self) -> u16 {
        self.r3 as u16
    }

    #[verifier::when_used_as_spec(spec_rate)]
    pub fn rate(&self) -> (r: usize)
        ensures
            r == self.spec_rate(),
            r < 16,
    {
        proof {
            lemma_dmc_fields(self.r0, self.r1);
        }
        (self.r0 & 0xF) as usize
    }

    #[verifier::when_used_as_spec(spec_dmc_loop)]
    pub fn dmc_loop(&self) -> (r: bool)
        ensures
            r == self.spec_dmc_loop(),
    {
        (self.r0 >> 6) & 0x1 == 1
    }

    #[verifier::when_used_as_spec(spec_irq_enable)]
    pub fn irq_enable(&self) -> (r: bool)
        ensures
            r == self.spec_irq_enable(),
    {
        (self.r0 >> 7) & 0x1 == 1
    }

    #[verifier::when_used_as_spec(spec_direct_load)]
    pub fn direct_load(&self) -> (r: u8)
        ensures
            r == self.spec_direct_load(),
            r <= 127,
    {
        proof {
            lemma_dmc_fields(self.r0, self.r1);
        }
        self.r1 & 0x7F
    }

    #[verifier::when_used_as_spec(spec_sample_start)]
    pub fn sample_start(&self) -> (r: u16)
        ensures
            r == self.spec_sample_start(),
    {
        self.r2 as u16
    }

    #[verifier::when_used_as_spec(spec_sample_len)]
    pub fn sample_len(&self) -> (r: u16)
        ensures
            r == self.spec_sample_len(),
    {
        self.r3 as u16
    }

    /// First half of a clock: refill the sample buffer from `fetched` (the byte at
    /// `sample_addr`) when it is empty and bytes remain, then restart a pending sample.
    pub open spec fn fetched(self, fetched: u8) -> Dmc {
        let s1 = if self.sample_buffer is None && self.bytes_remaining > 0 {
            let bytes_remaining = (self.bytes_remaining - 1) as u16;
            Dmc {
                sample_buffer: Some(fetched),
                sample_addr: if self.sample_addr == 0xFFFF {
                    0x8000
                } else {
                    (self.sample_addr + 1) as u16
                },
                bytes_remaining,
                start_sample: if bytes_remaining == 0 && self.dmc_loop() {
                    true
                } else {
                    self.start_sample
                },
                irq: if bytes_remaining == 0 && !self.dmc_loop() {
                    self.irq_enable()
                } else {
                    self.irq
                },
                ..self
            }
        } else {
            self
        };
        if s1.start_sample {
            Dmc {
                sample_addr: 0xC000 | (s1.sample_start() << 6),
                bytes_remaining: (s1.sample_len() * 16 + 1) as u16,
                start_sample: false,
                ..s1
            }
        } else {
            s1
        }
    }

    /// Second half of a clock: the output unit.
    pub open spec fn output_clocked(self) -> Dmc {
        if self.timer == 0 {
            let output = if !self.silence {
                let decrement = self.shift_register & 0x01 == 0;
                if decrement && self.output >= 2 {
                    (self.output - 2) as u8
                } else if !decrement && self.output <= 125 {
                    (self.output + 2) as u8
                } else {
                    self.output
                }
            } else {
                self.output
            };
            let shift = self.shift_register >> 1;
            let bits = self.bits_remaining - 1;
            if bits <= 0 {
                match self.sample_buffer {
                    Some(v) => Dmc {
                        timer: (DMC_RATE[self.rate() as int] - 1) as u16,
                        output,
                        shift_register: v,
                        bits_remaining: 8,
                        sample_buffer: None,
                        silence: false,
                        ..self
                    },
                    None => Dmc {
                        timer: (DMC_RATE[self.rate() as int] - 1) as u16,
                        output,
                        shift_register: shift,
                        bits_remaining: 8,
                        silence: true,
                        ..self
                    },
                }
            } else {
                Dmc {
                    timer: (DMC_RATE[self.rate() as int] - 1) as u16,
                    output,
                    shift_register: shift,
                    bits_remaining: bits as i8,
                    ..self
                }
            }
        } else {
            Dmc { timer: (self.timer - 1) as u16, ..self }
        }
    }

    /// Whether this clock reads a byte from cartridge memory.
    pub open spec fn fetches(self) -> bool {
        self.enable && self.sample_buffer is None && self.bytes_remaining > 0
    }

    /// One clock, given the byte stored at `sample_addr`.
    pub open spec fn ticked(self, fetched: u8) -> Dmc {
        if !self.enable {
            self
        } else {
            self.fetched(fetched).output_clocked()
        }
    }

    pub open spec fn with_enable(self, enable: bool) -> Dmc {
        Dmc {
            enable,
            irq: false,
            start_sample: if enable { self.bytes_remaining == 0 } else { self.start_sample },
            bytes_remaining: if enable { self.bytes_remaining } else { 0 },
            ..self
        }
    }

    pub fn new() -> (r: Self)
        ensures
            r == Dmc::zeroed(),
            r.wf(),
    {
        Dmc {
            r0: 0,
            r1: 0,
            r2: 0,
            r3: 0,
            enable: false,
            timer: 0,
            silence: false,
            irq: false,
            sample_buffer: None,
            start_sample: false,
            sample_addr: 0,
            bytes_remaining: 0,
            shift_register: 0,
            bits_remaining: 0,
            output: 0,
        }
    }

    pub fn tick(&mut self, cartridge: &mut Cartridge)
        requires
            old(self).wf(),
            old(cartridge)@.wf(),
            old(self).fetches() ==> old(cartridge)@.cpu_readable(old(self).sample_addr),
        ensures
            final(cartridge)@ == old(cartridge)@,
            *final(self) == old(self).ticked(old(cartridge)@.cpu_value(old(self).sample_addr)),
            final(self).wf(),
    {
        if !self.enable {
            return;
        }
        proof {
            lemma_dmc_fields(self.r0, self.r1);
        }
        if self.sample_buffer.is_none() && self.bytes_remaining > 0 {
            self.sample_buffer = Some(cartridge.read_cpu(self.sample_addr));
            self.sample_addr = if self.sample_addr == 0xFFFF {
                0x8000
            } else {
                self.sample_addr + 1
            };
            self.bytes_remaining -= 1;
            if self.bytes_remaining == 0 && self.dmc_loop() {
                self.start_sample = true;
            } else if self.bytes_remaining == 0 {
                self.irq = self.irq_enable();
            }
        }
        if self.start_sample {
            proof {
                lemma_sample_address(self.r2);
            }
            self.sample_addr = 0xC000 | (self.sample_start() << 6);
            self.bytes_remaining = self.sample_len() * 16 + 1;
            self.start_sample = false;
        }
        if self.timer == 0 {
            self.timer = DMC_RATE[self.rate()] - 1;
            if !self.silence {
                let decrement = self.shift_register & 0x01 == 0;
                if decrement && self.output >= 2 {
                    self.output -= 2;
                } else if !decrement && self.output <= 125 {
                    self.output += 2;
                }
            }
            self.shift_register >>= 1;
            self.bits_remaining -= 1;
            if self.bits_remaining <= 0 {
                self.bits_remaining = 8;
                match self.sample_buffer.take() {
                    Some(value) => {
                        self.shift_register = value;
                        self.silence = false;
                    },
                    None => {
                        self.silence = true;
                    },
                }
            }
        } else {
            self.timer -= 1;
        }
    }

    pub fn _tick_half_frame(&mut self)
        ensures
            *final(self) == *old(self),
    {
    }

    pub fn _tick_quarter_frame(&mut self)
        ensures
            *final(self) == *old(self),
    {
    }

    pub fn set_enable(&mut self, enable: bool)
        requires
            old(self).wf(),
        ensures
            *final(self) == old(self).with_enable(enable),
            final(self).wf(),
    {
        self.enable = enable;
        self.irq = false;
        if enable {
            self.start_sample = self.bytes_remaining == 0;
        } else {
            self.bytes_remaining = 0;
        }
    }

    pub fn write_r0(&mut self, data: u8)
        requires
            old(self).wf(),
        ensures
            final(self).wf(),
            *final(self) == (Dmc {
                r0: data,
                timer: (DMC_RATE[(data & 0xF) as int] - 1) as u16,
                irq: if (data >> 7) & 0x1 == 1 { old(self).irq } else { false },
                ..*old(self)
            }),
    {
        self.r0 = data;
        proof {
            lemma_dmc_fields(self.r0, self.r1);
            lemma_rates((data & 0xF) as usize);
        }
        self.timer = DMC_RATE[self.rate()] - 1;
        self.irq = if self.irq_enable() { self.irq } else { false };
    }

    pub fn write_r1(&mut self, data: u8)
        requires
            old(self).wf(),
        ensures
            final(self).wf(),
            *final(self) == (Dmc { r1: data, output: data & 0x7F, ..*old(self) }),
    {
        self.r1 = data;
        self.output = self.direct_load();
    }

    pub fn write_r2(&mut self, data: u8)
        requires
            old(self).wf(),
        ensures
            final(self).wf(),
            *final(self) == (Dmc { r2: data, ..*old(self) }),
    {
        self.r2 = data;
    }

    pub fn write_r3(&mut self, data: u8)
        requires
            old(self).wf(),
        ensures
            final(self).wf(),
            *final(self) == (Dmc { r3: data, ..*old(self) }),
    {
        self.r3 = data;
    }
}

impl Default for Dmc {
    fn default() -> (r: Dmc)
        ensures
            r == Dmc::zeroed(),
    {
        Dmc::new()
    }
}

/// The output level stays within 0..=127 and moves by at most 2 per clock, whatever
/// byte the sample read brings; it moves only when the channel is enabled, its timer has
/// run out and it is not silent, and a disabled channel does not change at all.
pub proof fn lemma_output_steps(d: Dmc, fetched: u8)
    requires
        d.output <= 127,
    ensures
        d.ticked(fetched).output <= 127,
        d.ticked(fetched).output == d.output || d.ticked(fetched).output == d.output + 2
            || d.ticked(fetched).output + 2 == d.output,
        d.ticked(fetched).output != d.output ==> d.enable && d.timer == 0 && !d.silence,
        !d.enable ==> d.ticked(fetched) == d,
{
    let s = d.fetched(fetched);
    assert(s.output == d.output && s.timer == d.timer && s.silence == d.silence);
}

/// Every rate entry is positive.
pub proof fn lemma_rates(i: usize)
    requires
        i < 16,
    ensures
        DMC_RATE[i as int] >= 54,
{
    assert(DMC_RATE@ == seq![
        428u16, 380, 340, 320, 286, 254, 226, 214, 190, 160, 142, 128, 106, 84, 72, 54,
    ]);
}

proof fn lemma_dmc_fields(r0: u8, r1: u8)
    by (bit_vector)
    ensures
        r0 & 0xF < 16,
        r1 & 0x7F <= 127,
{
}

/// A sample start address lies in 0xC000-0xFFC0.
proof fn lemma_sample_address(r2: u8)
    by (bit_vector)
    ensures
        0xC000u16 | ((r2 as u16) << 6) >= 0xC000,
{
}

} // verus!
