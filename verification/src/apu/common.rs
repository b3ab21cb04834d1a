use vstd::prelude::*;

pub use crate::console::apu::common::Envelope;

verus! {

/// Length counter of a channel: counts down on half-frame clocks and mutes the channel
/// once it has run out.
#[derive(Clone, Copy)]
pub struct LengthCounter {
    pub counter: u8,
    pub muting: bool,
}

impl LengthCounter {
    pub open spec fn zeroed() -> LengthCounter {
        LengthCounter { counter: 0, muting: false }
    }

    /// One half-frame clock.
    pub open spec fn ticked(self) -> LengthCounter {
        let counter = if self.counter > 0 { (self.counter - 1) as u8 } else { 0u8 };
        LengthCounter { counter, muting: counter == 0 }
    }

    pub fn new() -> (r: LengthCounter)
        ensures
            r == LengthCounter::zeroed(),
    {
        LengthCounter { counter: 0, muting: false }
    }

    pub fn tick(&mut self)
        ensures
            *final(self) == old(self).ticked(),
    {
        if self.counter > 0 {
            self.counter -= 1;
        }
        self.muting = self.counter == 0;
    }
}

/// The length counter after `k` half-frame clocks.
pub open spec fn ticked_times(lc: LengthCounter, k: nat) -> LengthCounter
    decreases k,
{
    if k == 0 {
        lc
    } else {
        ticked_times(lc, (k - 1) as nat).ticked()
    }
}

/// A length counter that holds `n > 0` is muted after exactly `n` half-frame clocks,
/// and not before.
pub proof fn lemma_length_counter_runs_out(lc: LengthCounter, k: nat)
    requires
        lc.counter > 0,
        k <= lc.counter,
    ensures
        ticked_times(lc, k).counter == lc.counter - k,
        k > 0 ==> (ticked_times(lc, k).muting <==> k == lc.counter),
    decreases k,
{
    if k > 0 {
        lemma_length_counter_runs_out(lc, (k - 1) as nat);
    }
}

} // verus!
