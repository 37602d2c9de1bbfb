//! The PPU scroll register: an X byte and a Y byte written in turn under a
//! shared write-toggle latch.

use vstd::prelude::*;

verus! {

/// The two scroll bytes and the write-toggle latch.
pub struct ScrollRegister {
    pub xscroll: u8,
    pub yscroll: u8,
    pub latch: bool,
}

/// One write to the scroll register: the latch picks the byte, then flips.
pub open spec fn spec_scroll_write(s: ScrollRegister, data: u8) -> ScrollRegister {
    if !s.latch {
        ScrollRegister { xscroll: data, yscroll: s.yscroll, latch: true }
    } else {
        ScrollRegister { xscroll: s.xscroll, yscroll: data, latch: false }
    }
}

impl ScrollRegister {
    /// Both scroll bytes start at zero with the latch on the X byte.
    pub fn new() -> (r: ScrollRegister)
        ensures
            r.xscroll == 0 && r.yscroll == 0 && !r.latch,
    {
        ScrollRegister { xscroll: 0, yscroll: 0, latch: false }
    }

    /// Feeds one byte through the two-write protocol.
    pub fn write(&mut self, data: u8)
        ensures
            *final(self) == spec_scroll_write(*old(self), data),
    {
        if !self.latch {
            self.xscroll = data;
        } else {
            self.yscroll = data;
        }
        self.latch = !self.latch;
    }

    /// Puts the latch back on the X byte, as a status read does.
    pub fn reset_latch(&mut self)
        ensures
            *final(self) == (ScrollRegister {
                latch: false,
                ..*old(self)
            }),
    {
        self.latch = false;
    }
}

} // verus!
