use vstd::prelude::*;

verus! {

/// Delta-modulation channel; only its direct-load level is produced.
#[derive(Clone, Copy)]
pub struct Dmc {
    pub r0: u8,
    pub r1: u8,
    pub r2: u8,
    pub r3: u8,
    pub enable: bool,
    pub output: u8,
}

impl Dmc {
    pub open spec fn zeroed() -> Dmc {
        Dmc { r0: 0, r1: 0, r2: 0, r3: 0, enable: false, output: 0 }
    }

    pub fn new() -> (r: Dmc)
        ensures
            r == Dmc::zeroed(),
    {
        Dmc { r0: 0, r1: 0, r2: 0, r3: 0, enable: false, output: 0 }
    }

    pub fn rate(&self) -> (r: u8)
        ensures
            r == self.r0 & 0xF,
    {
        self.r0 & 0xF
    }

    pub fn dmc_loop(&self) -> (r: bool)
        ensures
            r == ((self.r0 >> 6) & 1 == 1),
    {
        (self.r0 >> 6) & 1 == 1
    }

    pub fn irq_enable(&self) -> (r: bool)
        ensures
            r == ((self.r0 >> 7) & 1 == 1),
    {
        (self.r0 >> 7) & 1 == 1
    }

    pub fn direct_load(&self) -> (r: u8)
        ensures
            r == self.r1 & 0x7F,
    {
        self.r1 & 0x7F
    }

    pub fn sample_addr(&self) -> (r: u8)
        ensures
            r == self.r2,
    {
        self.r2
    }

    pub fn sample_len(&self) -> (r: u8)
        ensures
            r == self.r3,
    {
        self.r3
    }

    /// Sample playback is not modelled: a timer clock changes nothing.
    pub fn tick(&mut self)
        ensures
            *final(self) == *old(self),
    {
    }

    pub fn _tick_half_frame(&mut self)
        ensures
            *final(self) == *old(self),
    {
    }

    pub fn _tick_quarter_frame(&mut self)
        ensures
            *final(self) == *old(self),
    {
    }

    pub fn set_enable(&mut self, enable: bool)
        ensures
            *final(self) == (Dmc { enable, ..*old(self) }),
    {
        self.enable = enable;
    }

    pub fn write_r0(&mut self, data: u8)
        ensures
            *final(self) == (Dmc { r0: data, ..*old(self) }),
    {
        self.r0 = data;
    }

    /// Stores the register and loads the output level directly from its low seven bits.
    pub fn write_r1(&mut self, data: u8)
        ensures
            *final(self) == (Dmc { r1: data, output: data & 0x7F, ..*old(self) }),
    {
        self.r1 = data;
        self.output = self.direct_load();
    }

    pub fn write_r2(&mut self, data: u8)
        ensures
            *final(self) == (Dmc { r2: data, ..*old(self) }),
    {
        self.r2 = data;
    }

    pub fn write_r3(&mut self, data: u8)
        ensures
            *final(self) == (Dmc { r3: data, ..*old(self) }),
    {
        self.r3 = data;
    }
}

} // verus!
