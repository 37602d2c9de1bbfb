//! The PPU controller register: base nametable, VRAM address stride, pattern
//! table selectors, sprite size, master/slave select and NMI enable.

use vstd::prelude::*;

verus! {

/// The write-only PPU controller byte.
pub struct ControllerRegister {
    pub cregister: u8,
}

/// The bits of the controller byte.
#[derive(Clone, Copy, Debug)]
pub enum ControllerFlag {
    Nametable1,
    Nametable2,
    VramAddress,
    SpriteAddress,
    BackgroundAddress,
    SpriteSize,
    MasterSlaveSelect,
    GenerateNmi,
}

/// The bit each controller flag occupies.
pub open spec fn controller_bit(cflag: ControllerFlag) -> u8 {
    match cflag {
        ControllerFlag::Nametable1 => 0b0000_0001,
        ControllerFlag::Nametable2 => 0b0000_0010,
        ControllerFlag::VramAddress => 0b0000_0100,
        ControllerFlag::SpriteAddress => 0b0000_1000,
        ControllerFlag::BackgroundAddress => 0b0001_0000,
        ControllerFlag::SpriteSize => 0b0010_0000,
        ControllerFlag::MasterSlaveSelect => 0b0100_0000,
        ControllerFlag::GenerateNmi => 0b1000_0000,
    }
}

/// Whether `cflag` is set in the byte `c`.
pub open spec fn controller_flag_set(c: u8, cflag: ControllerFlag) -> bool {
    c & controller_bit(cflag) != 0
}

/// The VRAM address stride selected by the byte `c`: one going across, 32
/// going down.
pub open spec fn spec_vram_inc(c: u8) -> u8 {
    if controller_flag_set(c, ControllerFlag::VramAddress) {
        32
    } else {
        1
    }
}

/// Whether the byte `c` enables NMI generation at vblank entry.
pub open spec fn spec_generate_nmi(c: u8) -> bool {
    controller_flag_set(c, ControllerFlag::GenerateNmi)
}

/// The base nametable address selected by the low two bits of `c`.
pub open spec fn spec_nametable_address(c: u8) -> u16 {
    if c & 0b11 == 0 {
        0x2000
    } else if c & 0b11 == 1 {
        0x2400
    } else if c & 0b11 == 2 {
        0x2800
    } else {
        0x2c00
    }
}

impl ControllerRegister {
    /// Every bit starts cleared.
    pub fn new() -> (r: ControllerRegister)
        ensures
            r.cregister == 0,
    {
        ControllerRegister { cregister: 0 }
    }

    /// The base nametable address selected by the low two bits.
    pub fn nametable_address(&self) -> (r: u16)
        ensures
            r == spec_nametable_address(self.cregister),
    {
        let low = self.cregister & 0b11;
        proof {
            let c = self.cregister;
            assert(c & 0b11 <= 3) by (bit_vector);
        }
        if low == 0 {
            0x2000
        } else if low == 1 {
            0x2400
        } else if low == 2 {
            0x2800
        } else {
            0x2c00
        }
    }

    /// The auto-increment applied to the VRAM address after each data access.
    pub fn vram_address_inc(&self) -> (r: u8)
        ensures
            r == spec_vram_inc(self.cregister),
    {
        if !self.get_register_status(&ControllerFlag::VramAddress) {
            1
        } else {
            32
        }
    }

    /// The pattern-table base for sprites.
    pub fn sprite_address(&self) -> (r: u16)
        ensures
            r == if controller_flag_set(self.cregister, ControllerFlag::SpriteAddress) {
                0x1000u16
            } else {
                0u16
            },
    {
        if !self.get_register_status(&ControllerFlag::SpriteAddress) {
            0
        } else {
            0x1000
        }
    }

    /// The pattern-table base for the background.
    pub fn background_address(&self) -> (r: u16)
        ensures
            r == if controller_flag_set(self.cregister, ControllerFlag::BackgroundAddress) {
                0x1000u16
            } else {
                0u16
            },
    {
        if !self.get_register_status(&ControllerFlag::BackgroundAddress) {
            0
        } else {
            0x1000
        }
    }

    /// Sprite height in pixels: eight, or sixteen in tall-sprite mode.
    pub fn sprite_size(&self) -> (r: u8)
        ensures
            r == if controller_flag_set(self.cregister, ControllerFlag::SpriteSize) {
                16u8
            } else {
                8u8
            },
    {
        if !self.get_register_status(&ControllerFlag::SpriteSize) {
            8
        } else {
            16
        }
    }

    /// Master/slave select as a plain 0-or-1 value.
    pub fn ms_select(&self) -> (r: u8)
        ensures
            r == if controller_flag_set(self.cregister, ControllerFlag::MasterSlaveSelect) {
                1u8
            } else {
                0u8
            },
    {
        if !self.get_register_status(&ControllerFlag::MasterSlaveSelect) {
            0
        } else {
            1
        }
    }

    /// Whether an NMI is generated at vblank entry.
    pub fn generate_nmi(&self) -> (r: bool)
        ensures
            r == spec_generate_nmi(self.cregister),
    {
        self.get_register_status(&ControllerFlag::GenerateNmi)
    }

    /// Replaces the whole byte.
    pub fn update(&mut self, data: u8)
        ensures
            final(self).cregister == data,
    {
        self.cregister = data;
    }

    /// Tests one controller bit.
    pub fn get_register_status(&self, cflag: &ControllerFlag) -> (r: bool)
        ensures
            r == controller_flag_set(self.cregister, *cflag),
    {
        match cflag {
            ControllerFlag::Nametable1 => self.cregister & 0b0000_0001 != 0,
            ControllerFlag::Nametable2 => self.cregister & 0b0000_0010 != 0,
            ControllerFlag::VramAddress => self.cregister & 0b0000_0100 != 0,
            ControllerFlag::SpriteAddress => self.cregister & 0b0000_1000 != 0,
            ControllerFlag::BackgroundAddress => self.cregister & 0b0001_0000 != 0,
            ControllerFlag::SpriteSize => self.cregister & 0b0010_0000 != 0,
            ControllerFlag::MasterSlaveSelect => self.cregister & 0b0100_0000 != 0,
            ControllerFlag::GenerateNmi => self.cregister & 0b1000_0000 != 0,
        }
    }
}

} // verus!
