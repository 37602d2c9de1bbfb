//! Cartridge data as the core consumes it. The file parser is an external
//! collaborator: it hands over program bytes, character bytes and the
//! nametable mirroring mode as plain values.

use vstd::prelude::*;

verus! {

/// Nametable mirroring wired on the cartridge.
#[derive(Clone, Copy, Debug, PartialEq, Eq, Structural)]
pub enum Mirroring {
    Vertical,
    Horizontal,
}

/// A parsed cartridge: program ROM, character ROM and the mirroring mode.
pub struct Rom {
    pub prg_rom: Vec<u8>,
    pub chr_rom: Vec<u8>,
    pub screen_mirroring: Mirroring,
}

impl Rom {
    /// The shapes the bus and the PPU rely on: an 8 KiB character bank and a
    /// 16 KiB or 32 KiB program window.
    pub open spec fn wf(self) -> bool {
        &&& self.chr_rom@.len() == 0x2000
        &&& (self.prg_rom@.len() == 0x4000 || self.prg_rom@.len() == 0x8000)
    }
}

} // verus!
