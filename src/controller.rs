use vstd::prelude::*;

verus! {

/// The eight buttons, in the order the host shifts them out.
#[derive(Clone, Copy, Debug, PartialEq, Eq, Structural)]
pub enum Button {
    A,
    B,
    Select,
    Start,
    Up,
    Down,
    Left,
    Right,
}

/// Bit position of a button in the controller's registers.
pub open spec fn button_bit(b: Button) -> u8 {
    match b {
        Button::A => 0,
        Button::B => 1,
        Button::Select => 2,
        Button::Start => 3,
        Button::Up => 4,
        Button::Down => 5,
        Button::Left => 6,
        Button::Right => 7,
    }
}

impl Button {
    pub fn bit(&self) -> (r: u8)
        ensures
            r == button_bit(*self),
            r < 8,
    {
        match self {
            Button::A => 0,
            Button::B => 1,
            Button::Select => 2,
            Button::Start => 3,
            Button::Up => 4,
            Button::Down => 5,
            Button::Left => 6,
            Button::Right => 7,
        }
    }
}

/// An 8-button latching shift register. A pressed button reads as a
/// cleared bit.
#[derive(Clone, Copy, Debug, PartialEq, Eq, Structural)]
pub struct SNESController {
    /// Current, ephemeral button levels.
    pub state: u8,
    /// Levels captured by the last latch pulse; a press also clears its bit
    /// here at once, so that a short tap is not missed.
    pub latch: u8,
    /// Shift register; bit 0 is the button being reported.
    pub shift: u8,
}

/// Controller after the latch and clock lines take the given levels.
pub open spec fn controller_after_write(
    c: SNESController,
    latch: bool,
    clk: bool,
) -> SNESController {
    let latched = if latch {
        SNESController { state: c.state, latch: c.state, shift: c.latch }
    } else {
        c
    };
    if clk {
        SNESController { shift: latched.shift >> 1, ..latched }
    } else {
        latched
    }
}

impl SNESController {
    pub open spec fn new_spec() -> SNESController {
        SNESController { state: 0xFF, latch: 0xFF, shift: 0xFF }
    }

    /// All buttons released.
    pub fn new() -> (r: SNESController)
        ensures
            r == Self::new_spec(),
    {
        SNESController { state: 0xFF, latch: 0xFF, shift: 0xFF }
    }

    pub fn on_press(&mut self, btn: Button)
        ensures
            final(self).state == old(self).state & !(1u8 << button_bit(btn)),
            final(self).latch == old(self).latch & !(1u8 << button_bit(btn)),
            final(self).shift == old(self).shift,
    {
        let bit = btn.bit();
        self.state = self.state & !(1u8 << bit);
        self.latch = self.latch & !(1u8 << bit);
    }

    pub fn on_release(&mut self, btn: Button)
        ensures
            final(self).state == old(self).state | (1u8 << button_bit(btn)),
            final(self).latch == old(self).latch,
            final(self).shift == old(self).shift,
    {
        let bit = btn.bit();
        self.state = self.state | (1u8 << bit);
    }

    /// The button currently presented on the data line (bit 0 only).
    pub fn peek(&self) -> (r: u8)
        ensures
            r == self.shift & 1u8,
    {
        self.shift & 1u8
    }

    /// Same as `peek`: reading the data line has no side effect.
    pub fn read(&self) -> (r: u8)
        ensures
            r == self.shift & 1u8,
    {
        self.shift & 1u8
    }

    /// Applies the latch and clock lines: a latch level loads the shift
    /// register from the latch and samples the buttons into the latch; a
    /// clock level then shifts one bit out.
    pub fn write(&mut self, latch: bool, clk: bool)
        ensures
            *final(self) == controller_after_write(*old(self), latch, clk),
    {
        if latch {
            self.shift = self.latch;
            self.latch = self.state;
        }
        if clk {
            self.shift = self.shift >> 1;
        }
    }
}

} // verus!
