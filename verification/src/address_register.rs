//! The PPU address register: a 14-bit VRAM pointer written one byte at a time
//! under a high/low toggle latch, with carry-propagating auto-increment.

use vstd::prelude::*;

verus! {

/// The two halves of the VRAM pointer and the write-toggle latch. The latch
/// starts on the high byte.
pub struct AddressRegister {
    pub hi: u8,
    pub lo: u8,
    pub hi_ptr: bool,
}

/// The 16-bit pointer held by the register.
pub open spec fn spec_addr_get(r: AddressRegister) -> u16 {
    (r.hi * 256 + r.lo) as u16
}

/// Both halves replaced at once; the latch is untouched.
pub open spec fn spec_addr_set(r: AddressRegister, data: u16) -> AddressRegister {
    AddressRegister { hi: (data / 256) as u8, lo: (data % 256) as u8, hi_ptr: r.hi_ptr }
}

/// One write through the latch: the selected half takes the byte, the value is
/// masked to 14 bits, and the latch flips.
pub open spec fn spec_addr_update(r: AddressRegister, data: u8) -> AddressRegister {
    let written = if r.hi_ptr {
        AddressRegister { hi: data, ..r }
    } else {
        AddressRegister { lo: data, ..r }
    };
    let t = spec_addr_get(written);
    let masked = if t > 0x3fff {
        spec_addr_set(written, (t % 0x4000) as u16)
    } else {
        written
    };
    AddressRegister { hi_ptr: !r.hi_ptr, ..masked }
}

/// Auto-increment: the low byte advances with carry into the high byte, then
/// the value is masked to 14 bits.
pub open spec fn spec_addr_increment(r: AddressRegister, inc: u8) -> AddressRegister {
    let lo1 = r.lo.wrapping_add(inc);
    let hi1 = if r.lo > lo1 {
        r.hi.wrapping_add(1)
    } else {
        r.hi
    };
    let stepped = AddressRegister { hi: hi1, lo: lo1, hi_ptr: r.hi_ptr };
    let t = spec_addr_get(stepped);
    if t > 0x3fff {
        spec_addr_set(stepped, (t % 0x4000) as u16)
    } else {
        stepped
    }
}

impl AddressRegister {
    /// The pointer starts at zero with the latch expecting the high byte.
    pub fn new() -> (r: AddressRegister)
        ensures
            spec_addr_get(r) == 0 && r.hi_ptr,
    {
        AddressRegister { hi: 0, lo: 0, hi_ptr: true }
    }

    fn set_address(&mut self, data: u16)
        ensures
            *final(self) == spec_addr_set(*old(self), data),
    {
        self.hi = (data / 256) as u8;
        self.lo = (data % 256) as u8;
    }

    /// Feeds one byte through the two-write protocol.
    pub fn update(&mut self, data: u8)
        ensures
            *final(self) == spec_addr_update(*old(self), data),
    {
        if self.hi_ptr {
            self.hi = data;
        } else {
            self.lo = data;
        }
        let t = self.get();
        if t > 0x3fff {
            self.set_address(t % 0x4000);
        }
        self.hi_ptr = !self.hi_ptr;
    }

    /// Advances the pointer by the VRAM stride.
    pub fn increment(&mut self, inc: u8)
        ensures
            *final(self) == spec_addr_increment(*old(self), inc),
    {
        let lo = self.lo;
        self.lo = self.lo.wrapping_add(inc);
        if lo > self.lo {
            self.hi = self.hi.wrapping_add(1);
        }
        let t = self.get();
        if t > 0x3fff {
            self.set_address(t % 0x4000);
        }
    }

    /// Puts the latch back on the high byte, as a status read does.
    pub fn reset_latch(&mut self)
        ensures
            *final(self) == (AddressRegister {
                hi_ptr: true,
                ..*old(self)
            }),
    {
        self.hi_ptr = true;
    }

    /// The 16-bit pointer held by the register.
    pub fn get(&self) -> (r: u16)
        ensures
            r == spec_addr_get(*self),
    {
        self.hi as u16 * 256 + self.lo as u16
    }

}

/// After a status read resets the latch, writing a high byte and then a low
/// byte leaves the register holding that pair, with the high byte masked to
/// the 14-bit address space.
pub proof fn lemma_address_round_trip(r: AddressRegister, hi: u8, lo: u8)
    requires
        r.hi_ptr,
    ensures
        spec_addr_get(spec_addr_update(spec_addr_update(r, hi), lo)) == (((hi & 0x3f) as u16)
            << 8) | (lo as u16),
{
    let h = hi;
    let l = r.lo;
    let l2 = lo;
    assert(((((h as int) * 256 + (l as int)) % 0x4000) / 256) as u8 == (h & 0x3f)
        && ((((h as int) * 256 + (l as int)) % 0x4000) % 256) as u8 == l
        && (h & 0x3f) < 64
        && ((((h & 0x3f) as u16) << 8) | (l2 as u16)) == (h & 0x3f) as int * 256 + l2 as int)
        by (bit_vector);
}

} // verus!
