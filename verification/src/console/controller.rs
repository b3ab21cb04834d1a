use vstd::prelude::*;

verus! {

/// A button of the standard controller.
#[derive(Clone, Copy, PartialEq, Eq, Structural, Debug)]
pub enum Button {
    A,
    B,
    Select,
    Start,
    Up,
    Down,
    Left,
    Right,
}

impl Button {
    /// Position of the button in the controller's serial report.
    pub open spec fn spec_index(self) -> usize {
        match self {
            Button::A => 0,
            Button::B => 1,
            Button::Select => 2,
            Button::Start => 3,
            Button::Up => 4,
            Button::Down => 5,
            Button::Left => 6,
            Button::Right => 7,
        }
    }

    #[verifier::when_used_as_spec(spec_index)]
    pub fn index(self) -> (r: usize)
        ensures
            r == self.spec_index(),
            r < 8,
    {
        match self {
            Button::A => 0,
            Button::B => 1,
            Button::Select => 2,
            Button::Start => 3,
            Button::Up => 4,
            Button::Down => 5,
            Button::Left => 6,
            Button::Right => 7,
        }
    }
}

/// Standard controller: eight buttons reported one bit per read after a strobe.
pub struct Controller {
    pub buttons: [bool; 8],
    pub strobe: bool,
    pub read_ptr: usize,
}

impl Controller {
    pub open spec fn wf(&self) -> bool {
        self.read_ptr <= 8
    }

    /// Value the next read returns: the A button while strobing, then each button in
    /// order, then 1.
    pub open spec fn read_value(&self) -> u8 {
        if self.strobe {
            if self.buttons@[0] { 1 } else { 0 }
        } else if self.read_ptr < 8 {
            if self.buttons@[self.read_ptr as int] { 1 } else { 0 }
        } else {
            1
        }
    }

    /// The controller after a read.
    pub open spec fn after_read(&self) -> Controller {
        if !self.strobe && self.read_ptr < 8 {
            Controller { buttons: self.buttons, strobe: self.strobe, read_ptr: (self.read_ptr + 1) as usize }
        } else {
            Controller { buttons: self.buttons, strobe: self.strobe, read_ptr: self.read_ptr }
        }
    }

    /// The controller after a write: bit 0 set starts strobing; clearing it ends the
    /// strobe and rewinds the report.
    pub open spec fn after_write(&self, data: u8) -> Controller {
        if data & 0x1 != 0 {
            Controller { buttons: self.buttons, strobe: true, read_ptr: self.read_ptr }
        } else if self.strobe {
            Controller { buttons: self.buttons, strobe: false, read_ptr: 0 }
        } else {
            Controller { buttons: self.buttons, strobe: self.strobe, read_ptr: self.read_ptr }
        }
    }

    pub fn new() -> (r: Self)
        ensures
            r.buttons@ == Seq::new(8, |i: int| false),
            !r.strobe,
            r.read_ptr == 0,
            r.wf(),
    {
        let r = Controller { buttons: [false; 8], strobe: false, read_ptr: 0 };
        proof {
            assert(r.buttons@ =~= Seq::new(8, |i: int| false));
        }
        r
    }

    pub fn set_button_state(&mut self, button: Button, state: bool)
        ensures
            final(self).buttons@ == old(self).buttons@.update(button.index() as int, state),
            final(self).strobe == old(self).strobe,
            final(self).read_ptr == old(self).read_ptr,
    {
        let i = button.index();
        self.buttons[i] = state;
    }

    pub fn write(&mut self, data: u8)
        requires
            old(self).wf(),
        ensures
            *final(self) == old(self).after_write(data),
            final(self).wf(),
    {
        if data & 0x1 != 0 {
            self.strobe = true;
        } else if self.strobe {
            self.strobe = false;
            self.read_ptr = 0;
        }
    }

    pub fn read(&mut self) -> (r: u8)
        requires
            old(self).wf(),
        ensures
            r == old(self).read_value(),
            *final(self) == old(self).after_read(),
            final(self).wf(),
    {
        if self.strobe {
            if self.buttons[0] { 1 } else { 0 }
        } else if self.read_ptr < 8 {
            let val: u8 = if self.buttons[self.read_ptr] { 1 } else { 0 };
            self.read_ptr = self.read_ptr + 1;
            val
        } else {
            1
        }
    }
}

/// After a strobe, eight reads report the buttons A, B, Select, Start, Up, Down, Left,
/// Right in that order, and every further read reports 1.
pub proof fn lemma_controller_report(c: Controller, i: int)
    requires
        !c.strobe,
        c.read_ptr == 0,
        0 <= i <= 8,
    ensures
        reads_after(c, i).read_ptr == i,
        !reads_after(c, i).strobe,
        reads_after(c, i).buttons == c.buttons,
        i < 8 ==> reads_after(c, i).read_value() == if c.buttons@[i] { 1u8 } else { 0u8 },
        i == 8 ==> reads_after(c, i).read_value() == 1,
    decreases i,
{
    if i > 0 {
        lemma_controller_report(c, i - 1);
    }
}

/// The controller after `n` reads.
pub open spec fn reads_after(c: Controller, n: int) -> Controller
    decreases n,
{
    if n <= 0 {
        c
    } else {
        reads_after(c, n - 1).after_read()
    }
}

} // verus!
