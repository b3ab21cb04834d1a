use vstd::prelude::*;

verus! {

/// Volume envelope generator shared by the pulse and noise channels.
#[derive(Clone, Copy)]
pub struct Envelope {
    pub divider: u8,
    pub value: u8,
    pub reset: bool,
    pub divider_start: u8,
    pub looping: bool,
}

impl Envelope {
    pub open spec fn wf(&self) -> bool {
        self.value <= 15
    }

    pub open spec fn zeroed() -> Envelope {
        Envelope { divider: 0, value: 0, reset: false, divider_start: 0, looping: false }
    }

    /// One quarter-frame clock: a pending reset restarts at volume 15; otherwise the
    /// divider counts down and, when it expires, the volume decays (or loops back to 15).
    pub open spec fn ticked(self) -> Envelope {
        if self.reset {
            Envelope { divider: self.divider_start, value: 15, reset: false, ..self }
        } else if self.divider == 0 {
            Envelope {
                divider: self.divider_start,
                value: if self.looping && self.value == 0 {
                    15
                } else if self.value > 0 {
                    (self.value - 1) as u8
                } else {
                    self.value
                },
                ..self
            }
        } else {
            Envelope { divider: (self.divider - 1) as u8, ..self }
        }
    }

    pub fn new() -> (r: Envelope)
        ensures
            r == Envelope::zeroed(),
            r.wf(),
    {
        Envelope { divider: 0, value: 0, reset: false, divider_start: 0, looping: false }
    }

    pub fn tick(&mut self)
        requires
            old(self).wf(),
        ensures
            *final(self) == old(self).ticked(),
            final(self).wf(),
    {
        if self.reset {
            self.divider = self.divider_start;
            self.value = 15;
            self.reset = false;
        } else if self.divider == 0 {
            self.divider = self.divider_start;
            if self.looping && self.value == 0 {
                self.value = 15;
            } else if self.value > 0 {
                self.value -= 1;
            }
        } else {
            self.divider -= 1;
        }
    }
}

impl Default for Envelope {
    fn default() -> (r: Envelope)
        ensures
            r == Envelope::zeroed(),
    {
        Envelope::new()
    }
}

/// Without looping, an envelope that was just reset falls from 15 to 0 and stays there:
/// it is never louder than 15 and never rises again.
pub proof fn lemma_envelope_decays(e: Envelope)
    requires
        e.wf(),
        !e.reset,
        !e.looping,
    ensures
        e.ticked().value <= e.value,
        e.ticked().wf(),
        !e.ticked().reset,
        !e.ticked().looping,
{
}

} // verus!
