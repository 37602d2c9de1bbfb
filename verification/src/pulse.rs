//! The audio unit's pulse channel register file. Audio is out of scope: the
//! four bytes are decoded but never produce an effect.

use vstd::prelude::*;

verus! {

/// The four write-only configuration bytes of one pulse channel.
pub struct Pulse {
    pub bits0: u8,
    pub bits1: u8,
    pub bits2: u8,
    pub bits3: u8,
}

impl Pulse {
    /// All four registers start cleared.
    pub fn new() -> (r: Pulse)
        ensures
            r.bits0 == 0 && r.bits1 == 0 && r.bits2 == 0 && r.bits3 == 0,
    {
        Pulse { bits0: 0, bits1: 0, bits2: 0, bits3: 0 }
    }
}

} // verus!
