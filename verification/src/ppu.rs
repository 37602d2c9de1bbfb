//! The picture processing unit: character ROM, nametable RAM, palette RAM,
//! object attribute memory, the five CPU-visible registers, the buffered data
//! port, and the scanline/dot counters that generate the vblank NMI.
//!
//! Every operation is specified as a pure transition on [`PpuV`], the
//! mathematical view of the unit. Conditions on which the reference hardware
//! model would abort (writes into character ROM, palette indices past the
//! 32-byte file, nametable indices past the 2 KiB VRAM) set a sticky `fault`
//! flag instead; a faulted unit is dead to the bus.

use crate::address_register::AddressRegister;
use crate::address_register::spec_addr_get;
use crate::address_register::spec_addr_increment;
use crate::controller_register::ControllerRegister;
use crate::controller_register::spec_generate_nmi;
use crate::controller_register::spec_vram_inc;
use crate::mask_register::MaskRegister;
use crate::rom::Mirroring;
use crate::scroll_register::ScrollRegister;
use crate::status_register::StatusFlag;
use crate::status_register::StatusRegister;
use crate::status_register::status_clear_mask;
use crate::status_register::status_flag_set;
use crate::status_register::status_mask;
use vstd::prelude::*;

verus! {

/// The picture processing unit.
pub struct PPU {
    pub chr_rom: Vec<u8>,
    pub palette: Vec<u8>,
    pub vram: Vec<u8>,
    pub mirroring: Mirroring,
    pub oam_address: u8,
    pub oam_data: Vec<u8>,
    pub controller: ControllerRegister,
    pub scroll: ScrollRegister,
    pub address: AddressRegister,
    pub mask: MaskRegister,
    pub status: StatusRegister,
    pub data_buffer: u8,
    pub scanline: u16,
    pub cycles: usize,
    pub nmi_interrupt: Option<u8>,
    pub fault: bool,
}

/// The mathematical view of the unit: memories as sequences, registers as
/// their raw bytes or latch structures.
#[verifier::ext_equal]
pub struct PpuV {
    pub chr: Seq<u8>,
    pub palette: Seq<u8>,
    pub vram: Seq<u8>,
    pub mirroring: Mirroring,
    pub oam_address: u8,
    pub oam: Seq<u8>,
    pub controller: u8,
    pub scroll: ScrollRegister,
    pub address: AddressRegister,
    pub mask: u8,
    pub status: u8,
    pub data_buffer: u8,
    pub scanline: u16,
    pub cycles: usize,
    pub nmi_interrupt: Option<u8>,
    pub fault: bool,
}

impl View for PPU {
    type V = PpuV;

    open spec fn view(&self) -> PpuV {
        PpuV {
            chr: self.chr_rom@,
            palette: self.palette@,
            vram: self.vram@,
            mirroring: self.mirroring,
            oam_address: self.oam_address,
            oam: self.oam_data@,
            controller: self.controller.cregister,
            scroll: self.scroll,
            address: self.address,
            mask: self.mask.mregister,
            status: self.status.sregister,
            data_buffer: self.data_buffer,
            scanline: self.scanline,
            cycles: self.cycles,
            nmi_interrupt: self.nmi_interrupt,
            fault: self.fault,
        }
    }
}

impl PpuV {
    /// Well-formedness: the memory shapes are fixed, the dot and scanline
    /// counters stay inside one frame, and the address register stays inside
    /// the 14-bit PPU address space.
    pub open spec fn wf(self) -> bool {
        &&& self.chr.len() == 0x2000
        &&& self.palette.len() == 32
        &&& self.vram.len() == 0x800
        &&& self.oam.len() == 256
        &&& self.scanline <= 261
        &&& self.cycles <= 340
        &&& spec_addr_get(self.address) <= 0x3fff
    }
}

/// Resolves a nametable address to an index into the 2 KiB VRAM: the window
/// `0x3000..=0x3eff` folds onto `0x2000..=0x2fff`, then the cartridge's
/// mirroring folds the four logical tables onto the physical ones.
pub open spec fn spec_mirror_address(m: Mirroring, addr: u16) -> u16 {
    let vram_index = ((addr - 0x2000) % 0x1000) as u16;
    let name_table = vram_index / 0x400;
    if m == Mirroring::Vertical && (name_table == 2 || name_table == 3) {
        (vram_index - 0x800) as u16
    } else if m == Mirroring::Horizontal && (name_table == 1 || name_table == 2) {
        (vram_index - 0x400) as u16
    } else if m == Mirroring::Horizontal && name_table == 3 {
        (vram_index - 0x400) as u16
    } else {
        vram_index
    }
}

/// The buffered read through the data port: the address register is fetched,
/// auto-incremented, and the pre-increment address decides between the
/// one-read-late buffer (pattern tables, and the nametable window up to
/// `0x3eff` folded through the mirroring map) and the direct palette file.
pub open spec fn spec_read_data(p: PpuV) -> (PpuV, u8) {
    let addr = spec_addr_get(p.address);
    let p1 = PpuV {
        address: spec_addr_increment(p.address, spec_vram_inc(p.controller)),
        ..p
    };
    if addr <= 0x1fff {
        (PpuV { data_buffer: p.chr[addr as int], ..p1 }, p.data_buffer)
    } else if addr <= 0x3eff {
        let idx = spec_mirror_address(p.mirroring, addr);
        if idx < 0x800 {
            (PpuV { data_buffer: p.vram[idx as int], ..p1 }, p.data_buffer)
        } else {
            (PpuV { fault: true, ..p1 }, 0)
        }
    } else if addr == 0x3f10 || addr == 0x3f14 || addr == 0x3f18 || addr == 0x3f1c {
        (p1, p.palette[addr - 0x3f10])
    } else {
        if addr - 0x3f00 < 32 {
            (p1, p.palette[addr - 0x3f00])
        } else {
            (PpuV { fault: true, ..p1 }, 0)
        }
    }
}

/// The write through the data port: pattern-table space is read-only, the
/// nametable window goes through the mirroring map, the palette file resolves
/// its four mirrored slots; a successful write auto-increments the address.
pub open spec fn spec_write_data(p: PpuV, data: u8) -> PpuV {
    let addr = spec_addr_get(p.address);
    let p1 = PpuV {
        address: spec_addr_increment(p.address, spec_vram_inc(p.controller)),
        ..p
    };
    if addr <= 0x1fff {
        PpuV { fault: true, ..p }
    } else if addr <= 0x3eff {
        let idx = spec_mirror_address(p.mirroring, addr);
        if idx < 0x800 {
            PpuV { vram: p.vram.update(idx as int, data), ..p1 }
        } else {
            PpuV { fault: true, ..p }
        }
    } else if addr == 0x3f10 || addr == 0x3f14 || addr == 0x3f18 || addr == 0x3f1c {
        PpuV { palette: p.palette.update(addr - 0x3f10, data), ..p1 }
    } else {
        if addr - 0x3f00 < 32 {
            PpuV { palette: p.palette.update(addr - 0x3f00, data), ..p1 }
        } else {
            PpuV { fault: true, ..p }
        }
    }
}

/// A controller write: the byte is replaced, and if this transition raises
/// NMI-enable while the vblank flag is set, the pending NMI is raised.
pub open spec fn spec_write_controller(p: PpuV, data: u8) -> PpuV {
    let before = spec_generate_nmi(p.controller);
    let p1 = PpuV { controller: data, ..p };
    if !before && spec_generate_nmi(data) && status_flag_set(p.status, StatusFlag::VBlank) {
        PpuV { nmi_interrupt: Some(1), ..p1 }
    } else {
        p1
    }
}

/// A status read: the pre-clear byte comes back while vblank and both write
/// latches are cleared, atomically.
pub open spec fn spec_read_status(p: PpuV) -> (PpuV, u8) {
    (
        PpuV {
            status: p.status & status_clear_mask(StatusFlag::VBlank),
            address: (AddressRegister { hi_ptr: true, ..p.address }),
            scroll: (ScrollRegister { latch: false, ..p.scroll }),
            ..p
        },
        p.status,
    )
}

/// A write to OAM data: the byte lands at the OAM address, which then
/// advances with wrap-around.
pub open spec fn spec_write_oam_data(p: PpuV, data: u8) -> PpuV {
    PpuV {
        oam: p.oam.update(p.oam_address as int, data),
        oam_address: p.oam_address.wrapping_add(1),
        ..p
    }
}

/// Position of ring index `j` relative to `start` on the 256-byte OAM ring.
pub open spec fn ring_offset(j: int, start: int) -> int {
    if j >= start {
        j - start
    } else {
        j + 256 - start
    }
}

/// The OAM DMA transfer: 256 bytes land in OAM beginning at the current OAM
/// address with wrap-around, so byte `j` of OAM ends up holding the source
/// byte that is `j`'s distance from the starting address; the address itself
/// comes full circle.
pub open spec fn spec_write_oam_dma(p: PpuV, data: Seq<u8>) -> PpuV {
    PpuV {
        oam: Seq::new(256, |j: int| data[ring_offset(j, p.oam_address as int)]),
        ..p
    }
}

/// The clock: `n` dots are added; on crossing a 341-dot scanline boundary the
/// scanline advances, entering vblank at line 241 (raising the NMI if
/// enabled) and wrapping to a new frame past line 261.
pub open spec fn spec_tick(p: PpuV, n: u8) -> (PpuV, bool) {
    if p.cycles + n >= 341 {
        let base = PpuV {
            cycles: (p.cycles + n - 341) as usize,
            scanline: (p.scanline + 1) as u16,
            ..p
        };
        let at241 = if base.scanline == 241 {
            PpuV {
                status: (base.status | status_mask(StatusFlag::VBlank)) & status_clear_mask(
                    StatusFlag::SpriteZero,
                ),
                nmi_interrupt: if spec_generate_nmi(base.controller) {
                    Some(1u8)
                } else {
                    base.nmi_interrupt
                },
                ..base
            }
        } else {
            base
        };
        if at241.scanline >= 262 {
            (
                PpuV {
                    scanline: 0,
                    nmi_interrupt: None,
                    status: (at241.status & status_clear_mask(StatusFlag::SpriteZero))
                        & status_clear_mask(StatusFlag::VBlank),
                    ..at241
                },
                true,
            )
        } else {
            (at241, false)
        }
    } else {
        (PpuV { cycles: (p.cycles + n) as usize, ..p }, false)
    }
}

/// A freshly powered unit: memories cleared, registers cleared, counters at
/// dot zero of scanline zero, no NMI pending.
pub open spec fn spec_fresh_ppu(chr: Seq<u8>, mirroring: Mirroring) -> PpuV {
    PpuV {
        chr,
        palette: Seq::new(32, |_i: int| 0u8),
        vram: Seq::new(0x800, |_i: int| 0u8),
        mirroring,
        oam_address: 0,
        oam: Seq::new(256, |_i: int| 0u8),
        controller: 0,
        scroll: (ScrollRegister { xscroll: 0, yscroll: 0, latch: false }),
        address: (AddressRegister { hi: 0, lo: 0, hi_ptr: true }),
        mask: 0,
        status: 0,
        data_buffer: 0,
        scanline: 0,
        cycles: 0,
        nmi_interrupt: None,
        fault: false,
    }
}

impl PPU {
    /// A freshly powered unit.
    pub fn new(chr_rom: Vec<u8>, mirroring: Mirroring) -> (r: PPU)
        requires
            chr_rom@.len() == 0x2000,
        ensures
            r@ == spec_fresh_ppu(chr_rom@, mirroring),
            r@.wf(),
    {
        let ghost chr0 = chr_rom@;
        let r = PPU {
            chr_rom,
            palette: zeroed(32),
            vram: zeroed(0x800),
            mirroring,
            oam_address: 0,
            oam_data: zeroed(256),
            controller: ControllerRegister::new(),
            scroll: ScrollRegister::new(),
            address: AddressRegister::new(),
            mask: MaskRegister::new(),
            status: StatusRegister::new(),
            data_buffer: 0,
            scanline: 0,
            cycles: 0,
            nmi_interrupt: None,
            fault: false,
        };
        proof {
            assert(r@ =~= spec_fresh_ppu(chr0, mirroring));
        }
        r
    }

    /// Advances the dot clock; reports whether a frame just completed.
    pub fn tick(&mut self, cycles: u8) -> (frame: bool)
        requires
            old(self)@.wf(),
        ensures
            (final(self)@, frame) == spec_tick(old(self)@, cycles),
            final(self)@.wf(),
    {
        self.cycles = self.cycles + cycles as usize;
        if self.cycles >= 341 {
            self.cycles = self.cycles - 341;
            self.scanline = self.scanline + 1;
            if self.scanline == 241 {
                self.status.enable_flag(&StatusFlag::VBlank);
                self.status.disable_flag(&StatusFlag::SpriteZero);
                if self.controller.generate_nmi() {
                    self.nmi_interrupt = Some(1);
                }
            }
            if self.scanline >= 262 {
                self.scanline = 0;
                self.nmi_interrupt = None;
                self.status.disable_flag(&StatusFlag::SpriteZero);
                self.status.disable_flag(&StatusFlag::VBlank);
                return true;
            }
        }
        false
    }

    /// Takes the pending NMI, clearing it.
    pub fn poll_nmi(&mut self) -> (r: Option<u8>)
        ensures
            r == old(self)@.nmi_interrupt,
            final(self)@ == (PpuV { nmi_interrupt: None, ..old(self)@ }),
    {
        self.nmi_interrupt.take()
    }

    /// The CPU-side mask write.
    pub fn write_mask(&mut self, data: u8)
        ensures
            final(self)@ == (PpuV { mask: data, ..old(self)@ }),
    {
        self.mask.update(data);
    }

    /// The CPU-side address write, one byte through the latch.
    pub fn write_ppu_address(&mut self, data: u8)
        ensures
            final(self)@ == (PpuV {
                address: crate::address_register::spec_addr_update(old(self)@.address, data),
                ..old(self)@
            }),
            old(self)@.wf() ==> final(self)@.wf(),
    {
        self.address.update(data);
        proof {
            lemma_addr_update_in_range(old(self)@.address, data);
        }
    }

    /// The CPU-side scroll write, one byte through the latch.
    pub fn write_scroll(&mut self, data: u8)
        ensures
            final(self)@ == (PpuV {
                scroll: crate::scroll_register::spec_scroll_write(old(self)@.scroll, data),
                ..old(self)@
            }),
    {
        self.scroll.write(data);
    }

    /// The CPU-side controller write, with the NMI edge on enable-during-vblank.
    pub fn write_controller(&mut self, data: u8)
        ensures
            final(self)@ == spec_write_controller(old(self)@, data),
    {
        let nmi_copy = self.controller.generate_nmi();
        self.controller.update(data);
        if !nmi_copy && self.controller.generate_nmi() && self.status.get_register_status(
            &StatusFlag::VBlank,
        ) {
            self.nmi_interrupt = Some(1);
        }
    }

    /// The CPU-side status read, with its atomic clear side effects.
    pub fn read_status(&mut self) -> (data: u8)
        ensures
            (final(self)@, data) == spec_read_status(old(self)@),
    {
        let data = self.status.snapshot();
        self.status.disable_flag(&StatusFlag::VBlank);
        self.address.reset_latch();
        self.scroll.reset_latch();
        data
    }

    fn increment_vram_address(&mut self)
        ensures
            final(self)@ == (PpuV {
                address: spec_addr_increment(old(self)@.address, spec_vram_inc(old(self)@.controller)),
                ..old(self)@
            }),
            old(self)@.wf() ==> final(self)@.wf(),
    {
        let inc = self.controller.vram_address_inc();
        self.address.increment(inc);
        proof {
            lemma_addr_increment_in_range(old(self)@.address, inc);
        }
    }

    /// Sets the OAM address.
    pub fn write_oam_address(&mut self, data: u8)
        ensures
            final(self)@ == (PpuV { oam_address: data, ..old(self)@ }),
    {
        self.oam_address = data;
    }

    /// Writes one OAM byte at the current address, which then advances.
    pub fn write_oam_data(&mut self, data: u8)
        requires
            old(self)@.wf(),
        ensures
            final(self)@ == spec_write_oam_data(old(self)@, data),
            final(self)@.wf(),
    {
        self.oam_data.set(self.oam_address as usize, data);
        self.oam_address = self.oam_address.wrapping_add(1);
    }

    /// Reads the OAM byte at the current address; the address stays put.
    pub fn read_oam_data(&self) -> (r: u8)
        requires
            self@.wf(),
        ensures
            r == self@.oam[self@.oam_address as int],
    {
        self.oam_data[self.oam_address as usize]
    }

    /// The buffered read through the data port.
    pub fn read_data(&mut self) -> (r: u8)
        requires
            old(self)@.wf(),
        ensures
            (final(self)@, r) == spec_read_data(old(self)@),
            final(self)@.wf(),
    {
        let addr = self.address.get();
        self.increment_vram_address();
        if addr <= 0x1fff {
            let result = self.data_buffer;
            self.data_buffer = self.chr_rom[addr as usize];
            result
        } else if addr <= 0x3eff {
            let idx = self.mirror_address(addr);
            if idx < 0x800 {
                let result = self.data_buffer;
                self.data_buffer = self.vram[idx as usize];
                result
            } else {
                self.fault = true;
                0
            }
        } else if addr == 0x3f10 || addr == 0x3f14 || addr == 0x3f18 || addr == 0x3f1c {
            self.palette[(addr - 0x3f10) as usize]
        } else {
            if addr - 0x3f00 < 32 {
                self.palette[(addr - 0x3f00) as usize]
            } else {
                self.fault = true;
                0
            }
        }
    }

    /// The bulk 256-byte copy into OAM.
    pub fn write_oam_dma(&mut self, data: &Vec<u8>)
        requires
            old(self)@.wf(),
            data@.len() == 256,
        ensures
            final(self)@ == spec_write_oam_dma(old(self)@, data@),
            final(self)@.wf(),
    {
        let ghost p0 = old(self)@;
        let ghost start = self.oam_address as int;
        let ghost oam0 = self.oam_data@;
        let mut i: usize = 0;
        while i < 256
            invariant
                0 <= i <= 256,
                self@.oam.len() == 256,
                data@.len() == 256,
                self@ == (PpuV { oam: self@.oam, oam_address: self@.oam_address, ..p0 }),
                p0.wf(),
                start == p0.oam_address as int,
                oam0 == p0.oam,
                self@.oam_address as int == (start + i) % 256,
                forall|j: int|
                    0 <= j < 256 ==> self@.oam[j] == (if ring_offset(j, start) < i {
                        data@[ring_offset(j, start)]
                    } else {
                        oam0[j]
                    }),
            decreases 256 - i,
        {
            proof {
                lemma_ring_step(start, i as int);
            }
            self.oam_data.set(self.oam_address as usize, data[i]);
            self.oam_address = self.oam_address.wrapping_add(1);
            i = i + 1;
        }
        proof {
            assert(self@.oam_address as int == (start + 256) % 256);
            lemma_ring_full(start);
            assert(self@.oam =~= spec_write_oam_dma(old(self)@, data@).oam);
        }
    }

    /// The write through the data port.
    pub fn write_data(&mut self, data: u8)
        requires
            old(self)@.wf(),
        ensures
            final(self)@ == spec_write_data(old(self)@, data),
            final(self)@.wf(),
    {
        let addr = self.address.get();
        if addr <= 0x1fff {
            self.fault = true;
            return;
        } else if addr <= 0x3eff {
            let idx = self.mirror_address(addr);
            if idx < 0x800 {
                self.vram.set(idx as usize, data);
            } else {
                self.fault = true;
                return;
            }
        } else if addr == 0x3f10 || addr == 0x3f14 || addr == 0x3f18 || addr == 0x3f1c {
            self.palette.set((addr - 0x3f10) as usize, data);
        } else {
            if addr - 0x3f00 < 32 {
                self.palette.set((addr - 0x3f00) as usize, data);
            } else {
                self.fault = true;
                return;
            }
        }
        self.increment_vram_address();
    }

    /// Resolves a nametable address to its VRAM index under the cartridge's
    /// mirroring.
    pub fn mirror_address(&self, addr: u16) -> (r: u16)
        requires
            0x2000 <= addr <= 0x3eff,
        ensures
            r == spec_mirror_address(self@.mirroring, addr),
    {
        let vram_index = (addr - 0x2000) % 0x1000;
        let name_table = vram_index / 0x400;
        match (&self.mirroring, name_table) {
            (Mirroring::Vertical, 2) | (Mirroring::Vertical, 3) => vram_index - 0x800,
            (Mirroring::Horizontal, 1) => vram_index - 0x400,
            (Mirroring::Horizontal, 2) => vram_index - 0x400,
            (Mirroring::Horizontal, 3) => vram_index - 0x400,
            _ => vram_index,
        }
    }
}

/// A fresh all-zero byte vector of the given length.
pub(crate) fn zeroed(n: usize) -> (v: Vec<u8>)
    ensures
        v@ =~= Seq::new(n as nat, |_i: int| 0u8),
{
    let mut v: Vec<u8> = Vec::new();
    let mut i: usize = 0;
    while i < n
        invariant
            0 <= i <= n,
            v@ =~= Seq::new(i as nat, |_i: int| 0u8),
        decreases n - i,
    {
        v.push(0);
        i = i + 1;
    }
    v
}

/// The two-write protocol keeps the address inside the 14-bit space.
pub proof fn lemma_addr_update_in_range(r: AddressRegister, data: u8)
    ensures
        spec_addr_get(crate::address_register::spec_addr_update(r, data)) <= 0x3fff,
{
}

/// The auto-increment keeps the address inside the 14-bit space.
pub proof fn lemma_addr_increment_in_range(r: AddressRegister, inc: u8)
    ensures
        spec_addr_get(spec_addr_increment(r, inc)) <= 0x3fff,
{
}

proof fn lemma_ring_step(start: int, i: int)
    requires
        0 <= start < 256,
        0 <= i < 256,
    ensures
        ring_offset((start + i) % 256, start) == i,
        forall|j: int|
            0 <= j < 256 && j != (start + i) % 256 ==> ring_offset(j, start) != i,
{
}

proof fn lemma_ring_full(start: int)
    requires
        0 <= start < 256,
    ensures
        forall|j: int| 0 <= j < 256 ==> 0 <= #[trigger] ring_offset(j, start) < 256,
{
}

/// A byte written through the data port into the nametable window lands in
/// the mirrored VRAM cell; with the address register pointed back at the
/// same address, one buffered read fetches that cell and the next read
/// returns it.
pub proof fn lemma_vram_round_trip(p: PpuV, v: u8)
    requires
        p.wf(),
        0x2000 <= spec_addr_get(p.address) <= 0x3eff,
        spec_mirror_address(p.mirroring, spec_addr_get(p.address)) < 0x800,
        ({
            let a2 = spec_addr_get(spec_addr_increment(p.address, spec_vram_inc(p.controller)));
            a2 <= 0x1fff || (0x2000 <= a2 <= 0x3eff && spec_mirror_address(p.mirroring, a2)
                < 0x800)
        }),
    ensures
        ({
            let idx = spec_mirror_address(p.mirroring, spec_addr_get(p.address));
            let q = spec_write_data(p, v);
            let q2 = PpuV { address: p.address, ..q };
            &&& q.vram[idx as int] == v
            &&& spec_read_data(spec_read_data(q2).0).1 == v
        }),
{
}

/// A byte written through the data port into the palette window reads back
/// directly (no buffering) once the address register points there again; the
/// four mirrored slots resolve the same way on both sides.
pub proof fn lemma_palette_round_trip(p: PpuV, v: u8)
    requires
        p.wf(),
        0x3f00 <= spec_addr_get(p.address) <= 0x3f1f,
    ensures
        ({
            let q = spec_write_data(p, v);
            let q2 = PpuV { address: p.address, ..q };
            spec_read_data(q2).1 == v
        }),
{
}

/// A byte written to OAM data lands at the OAM address it was written
/// under, and an OAM read at that address returns it.
pub proof fn lemma_oam_round_trip(p: PpuV, v: u8)
    requires
        p.wf(),
    ensures
        spec_write_oam_data(p, v).oam[p.oam_address as int] == v,
{
}

/// Entering vblank with NMI generation disabled leaves the pending-NMI line
/// exactly as it was; a controller write that then raises NMI-enable while
/// vblank is still set raises the pending NMI.
pub proof fn lemma_nmi_edge(p: PpuV, n: u8, q: PpuV, data: u8)
    requires
        p.wf(),
        p.cycles + n >= 341,
        p.scanline == 240,
        !spec_generate_nmi(p.controller),
        q.wf(),
        !spec_generate_nmi(q.controller),
        spec_generate_nmi(data),
        status_flag_set(q.status, StatusFlag::VBlank),
    ensures
        spec_tick(p, n).0.nmi_interrupt == p.nmi_interrupt,
        spec_write_controller(q, data).nmi_interrupt == Some(1u8),
{
}

/// One tick keeps the counters inside a frame and advances the total dot
/// count by exactly the input, modulo one full frame of `262 * 341` dots.
pub proof fn lemma_tick_timing(p: PpuV, n: u8)
    requires
        p.wf(),
    ensures
        spec_tick(p, n).0.wf(),
        (spec_tick(p, n).0.scanline as int) * 341 + (spec_tick(p, n).0.cycles as int) == (
        (p.scanline as int) * 341 + (p.cycles as int) + (n as int)) % 89342int,
{
    let q = spec_tick(p, n).0;
    let total = (p.scanline as int) * 341 + (p.cycles as int) + (n as int);
    if p.cycles + n >= 341 {
        if p.scanline == 261 {
            assert(total < 2 * (262 * 341));
            assert((q.scanline as int) * 341 + (q.cycles as int) == total - 262 * 341);
        } else {
            assert((q.scanline as int) * 341 + (q.cycles as int) == total);
            assert((q.scanline as int) * 341 + (q.cycles as int) < 262 * 341);
        }
    } else {
        assert(total < 262 * 341);
    }
}

} // verus!
