//! The polled input device: a strobe-gated 8-bit shift register with one
//! button per bit.

use vstd::prelude::*;

verus! {

/// The eight buttons, highest bit first, plus a neutral value.
#[derive(Clone, Copy, Debug)]
pub enum Button {
    Right,
    Left,
    Down,
    Up,
    Start,
    Select,
    B,
    A,
    Neutral,
}

/// Button field, strobe line, and the shift-out bit index.
pub struct Joypad {
    pub button_status: u8,
    pub strobe: bool,
    pub bidx: u8,
}

/// The bit mask a button occupies in the shift register.
pub open spec fn spec_button_mask(button: Button) -> u8 {
    match button {
        Button::Right => 0b1000_0000,
        Button::Left => 0b0100_0000,
        Button::Down => 0b0010_0000,
        Button::Up => 0b0001_0000,
        Button::Start => 0b0000_1000,
        Button::Select => 0b0000_0100,
        Button::B => 0b0000_0010,
        Button::A => 0b0000_0001,
        Button::Neutral => 0b0000_0000,
    }
}

/// A strobe write: bit 0 sets the strobe; raising it rewinds the shifter.
pub open spec fn spec_joypad_write(j: Joypad, data: u8) -> Joypad {
    let strobe = data & 1 == 1;
    Joypad { strobe, bidx: if strobe { 0 } else { j.bidx }, button_status: j.button_status }
}

/// One shift-out: past the eighth bit the line reads one; otherwise the
/// current button bit comes out and, with the strobe low, the index advances.
pub open spec fn spec_joypad_read(j: Joypad) -> (Joypad, u8) {
    if j.bidx > 7 {
        (j, 1)
    } else {
        let resp = (j.button_status & (1u8 << j.bidx)) >> j.bidx;
        let j2 = if !j.strobe {
            Joypad { bidx: (j.bidx + 1) as u8, ..j }
        } else {
            j
        };
        (j2, resp)
    }
}

impl Joypad {
    /// No buttons held, strobe low, shifter rewound.
    pub fn new() -> (r: Joypad)
        ensures
            r.button_status == 0 && !r.strobe && r.bidx == 0,
    {
        Joypad { button_status: 0, strobe: false, bidx: 0 }
    }

    /// The CPU-side strobe write.
    pub fn write(&mut self, data: u8)
        ensures
            *final(self) == spec_joypad_write(*old(self), data),
    {
        self.strobe = data & 1 == 1;
        if self.strobe {
            self.bidx = 0;
        }
    }

    /// The CPU-side shift-out read.
    pub fn read(&mut self) -> (resp: u8)
        ensures
            (*final(self), resp) == spec_joypad_read(*old(self)),
    {
        if self.bidx > 7 {
            return 1;
        }
        let resp = (self.button_status & (1u8 << self.bidx)) >> self.bidx;
        if !self.strobe && self.bidx <= 7 {
            self.bidx = self.bidx + 1;
        }
        resp
    }

    /// Records a press or release. A press replaces the whole field with that
    /// button's bit; a release clears the field.
    pub fn set_button(&mut self, button: &Button, pressed: bool)
        ensures
            final(self).button_status == if pressed {
                spec_button_mask(*button)
            } else {
                0u8
            },
            final(self).strobe == old(self).strobe && final(self).bidx == old(self).bidx,
    {
        if pressed {
            self.button_status = self.get_button(button);
        } else {
            self.button_status = 0;
        }
    }

    /// The bit mask a button occupies.
    pub fn get_button(&self, button: &Button) -> (r: u8)
        ensures
            r == spec_button_mask(*button),
    {
        match button {
            Button::Right => 0b1000_0000,
            Button::Left => 0b0100_0000,
            Button::Down => 0b0010_0000,
            Button::Up => 0b0001_0000,
            Button::Start => 0b0000_1000,
            Button::Select => 0b0000_0100,
            Button::B => 0b0000_0010,
            Button::A => 0b0000_0001,
            Button::Neutral => 0b0000_0000,
        }
    }
}

} // verus!
