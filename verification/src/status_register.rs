//! The PPU status register: vblank, sprite-zero hit and sprite overflow,
//! packed into the top three bits of one byte.

use vstd::prelude::*;

verus! {

/// The readable PPU status byte.
pub struct StatusRegister {
    pub sregister: u8,
}

/// The three meaningful bits of the status byte.
#[derive(Clone, Copy, Debug)]
pub enum StatusFlag {
    VBlank,
    SpriteZero,
    SpriteOverflow,
}

/// The bit each status flag occupies.
pub open spec fn status_mask(sflag: StatusFlag) -> u8 {
    match sflag {
        StatusFlag::SpriteOverflow => 0b0010_0000,
        StatusFlag::SpriteZero => 0b0100_0000,
        StatusFlag::VBlank => 0b1000_0000,
    }
}

/// The complement of `status_mask`, spelled out so that contracts stay within
/// plain bit operations.
pub open spec fn status_clear_mask(sflag: StatusFlag) -> u8 {
    match sflag {
        StatusFlag::SpriteOverflow => 0b1101_1111,
        StatusFlag::SpriteZero => 0b1011_1111,
        StatusFlag::VBlank => 0b0111_1111,
    }
}

/// Whether `sflag` is set in the byte `s`.
pub open spec fn status_flag_set(s: u8, sflag: StatusFlag) -> bool {
    s & status_mask(sflag) != 0
}

impl StatusRegister {
    /// All flags start cleared.
    pub fn new() -> (r: StatusRegister)
        ensures
            r.sregister == 0,
    {
        StatusRegister { sregister: 0 }
    }

    /// Sets one flag, leaving the others alone.
    pub fn enable_flag(&mut self, sflag: &StatusFlag)
        ensures
            final(self).sregister == old(self).sregister | status_mask(*sflag),
    {
        match sflag {
            StatusFlag::SpriteOverflow => self.sregister = self.sregister | 0b0010_0000,
            StatusFlag::SpriteZero => self.sregister = self.sregister | 0b0100_0000,
            StatusFlag::VBlank => self.sregister = self.sregister | 0b1000_0000,
        }
    }

    /// Clears one flag, leaving the others alone.
    pub fn disable_flag(&mut self, sflag: &StatusFlag)
        ensures
            final(self).sregister == old(self).sregister & status_clear_mask(*sflag),
    {
        match sflag {
            StatusFlag::SpriteOverflow => self.sregister = self.sregister & 0b1101_1111,
            StatusFlag::SpriteZero => self.sregister = self.sregister & 0b1011_1111,
            StatusFlag::VBlank => self.sregister = self.sregister & 0b0111_1111,
        }
    }

    /// Tests one flag.
    pub fn get_register_status(&self, sflag: &StatusFlag) -> (r: bool)
        ensures
            r == status_flag_set(self.sregister, *sflag),
    {
        match sflag {
            StatusFlag::SpriteOverflow => self.sregister & 0b0010_0000 != 0,
            StatusFlag::SpriteZero => self.sregister & 0b0100_0000 != 0,
            StatusFlag::VBlank => self.sregister & 0b1000_0000 != 0,
        }
    }

    /// The raw byte as the CPU would read it.
    pub fn snapshot(&self) -> (r: u8)
        ensures
            r == self.sregister,
    {
        self.sregister
    }
}

} // verus!
