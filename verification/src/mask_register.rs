//! The PPU mask register: rendering enables, left-column enables, greyscale
//! and the three colour-emphasis bits, packed into one byte.

use vstd::prelude::*;

verus! {

/// The write-only PPU mask byte.
pub struct MaskRegister {
    pub mregister: u8,
}

/// The eight mask bits, one per rendering switch.
#[derive(Clone, Copy, Debug)]
pub enum MaskFlag {
    Blue,
    Green,
    Red,
    Sprite,
    Background,
    LeftSprite,
    LeftBackground,
    Greyscale,
}

/// A colour channel singled out by the emphasis bits.
#[derive(Clone, Copy, Debug, PartialEq, Eq, Structural)]
pub enum Color {
    Blue,
    Green,
    Red,
}

/// The bit each mask flag occupies.
pub open spec fn mask_bit(mflag: MaskFlag) -> u8 {
    match mflag {
        MaskFlag::Greyscale => 0b0000_0001,
        MaskFlag::LeftBackground => 0b0000_0010,
        MaskFlag::LeftSprite => 0b0000_0100,
        MaskFlag::Background => 0b0000_1000,
        MaskFlag::Sprite => 0b0001_0000,
        MaskFlag::Red => 0b0010_0000,
        MaskFlag::Green => 0b0100_0000,
        MaskFlag::Blue => 0b1000_0000,
    }
}

/// Whether `mflag` is set in the byte `m`.
pub open spec fn mask_flag_set(m: u8, mflag: MaskFlag) -> bool {
    m & mask_bit(mflag) != 0
}

/// The emphasised channels, in the fixed blue-green-red report order.
pub open spec fn spec_emphasise(m: u8) -> Seq<Color> {
    let blue: Seq<Color> = if mask_flag_set(m, MaskFlag::Blue) {
        seq![Color::Blue]
    } else {
        Seq::empty()
    };
    let green: Seq<Color> = if mask_flag_set(m, MaskFlag::Green) {
        seq![Color::Green]
    } else {
        Seq::empty()
    };
    let red: Seq<Color> = if mask_flag_set(m, MaskFlag::Red) {
        seq![Color::Red]
    } else {
        Seq::empty()
    };
    blue + green + red
}

impl MaskRegister {
    /// Every switch starts off.
    pub fn new() -> (r: MaskRegister)
        ensures
            r.mregister == 0,
    {
        MaskRegister { mregister: 0 }
    }

    /// Tests one mask bit.
    pub fn get_register_status(&self, mflag: &MaskFlag) -> (r: bool)
        ensures
            r == mask_flag_set(self.mregister, *mflag),
    {
        match mflag {
            MaskFlag::Greyscale => self.mregister & 0b0000_0001 != 0,
            MaskFlag::LeftBackground => self.mregister & 0b0000_0010 != 0,
            MaskFlag::LeftSprite => self.mregister & 0b0000_0100 != 0,
            MaskFlag::Background => self.mregister & 0b0000_1000 != 0,
            MaskFlag::Sprite => self.mregister & 0b0001_0000 != 0,
            MaskFlag::Red => self.mregister & 0b0010_0000 != 0,
            MaskFlag::Green => self.mregister & 0b0100_0000 != 0,
            MaskFlag::Blue => self.mregister & 0b1000_0000 != 0,
        }
    }

    /// Lists the emphasised colour channels.
    pub fn emphasise(&self) -> (r: Vec<Color>)
        ensures
            r@ == spec_emphasise(self.mregister),
    {
        let mut result = Vec::<Color>::new();
        if self.get_register_status(&MaskFlag::Blue) {
            result.push(Color::Blue);
        }
        if self.get_register_status(&MaskFlag::Green) {
            result.push(Color::Green);
        }
        if self.get_register_status(&MaskFlag::Red) {
            result.push(Color::Red);
        }
        assert(result@ =~= spec_emphasise(self.mregister));
        result
    }

    /// Replaces the whole byte.
    pub fn update(&mut self, data: u8)
        ensures
            final(self).mregister == data,
    {
        self.mregister = data;
    }
}

} // verus!
