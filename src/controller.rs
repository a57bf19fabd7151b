use vstd::prelude::*;

verus! {

/// One of the two joypads, read serially through 0x4016 / 0x4017.
#[derive(Debug)]
pub struct Controller {
    /// A, B, Select, Start, Up, Down, Left, Right.
    pub buttons: [bool; 8],
    /// The next button to report; 8 once all have been reported.
    pub index: usize,
    /// The last value written to the strobe register.
    pub strobe: u8,
}

impl Controller {
    pub open spec fn wf(&self) -> bool {
        self.index <= 8
    }

    /// What the next read reports: 1 while a button remains and is pressed.
    pub open spec fn next_bit(&self) -> u8 {
        if self.index < 8 && self.buttons@[self.index as int] {
            1
        } else {
            0
        }
    }

    /// The state after a read.
    pub open spec fn after_read(c: Controller) -> Controller {
        Controller {
            index: if c.strobe & 1 == 1 {
                0
            } else if c.index < 8 {
                (c.index + 1) as usize
            } else {
                8
            },
            ..c
        }
    }

    /// The state after `value` is written to the strobe register.
    pub open spec fn after_write(c: Controller, value: u8) -> Controller {
        Controller {
            strobe: value,
            index: if value & 1 == 1 {
                0
            } else {
                c.index
            },
            ..c
        }
    }

    pub fn new() -> (r: Controller)
        ensures
            r.wf(),
            r.buttons@ == seq![false; 8],
            r.index == 0,
            r.strobe == 0,
    {
        let r = Controller { buttons: [false; 8], index: 0, strobe: 0 };
        assert(r.buttons@ =~= seq![false; 8]);
        r
    }

    /// The state that the next strobe will latch.
    pub fn set_buttons(&mut self, buttons: [bool; 8])
        ensures
            final(self).buttons == buttons,
            final(self).index == old(self).index,
            final(self).strobe == old(self).strobe,
    {
        self.buttons = buttons;
    }

    /// Reports one button and moves on to the next, unless the strobe is high.
    pub fn read(&mut self) -> (r: u8)
        requires
            old(self).wf(),
        ensures
            final(self).wf(),
            r == old(self).next_bit(),
            *final(self) == Controller::after_read(*old(self)),
    {
        let value: u8 = if self.index < 8 && self.buttons[self.index] {
            1
        } else {
            0
        };
        if self.index < 8 {
            self.index = self.index + 1;
        }
        if self.strobe & 1 == 1 {
            self.index = 0;
        }
        value
    }

    /// Latches the strobe; while its low bit is set the index stays at A.
    pub fn write(&mut self, value: u8)
        requires
            old(self).wf(),
        ensures
            final(self).wf(),
            *final(self) == Controller::after_write(*old(self), value),
    {
        self.strobe = value;
        if self.strobe & 1 == 1 {
            self.index = 0;
        }
    }
}

} // verus!
