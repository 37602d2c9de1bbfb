//! The system bus: 2 KiB CPU RAM with mirroring, the PPU registers with
//! their 8-byte mirror, the cartridge program window, OAM DMA, the first
//! controller port, and the 3:1 clock coupling that drives the PPU forward
//! and surfaces the NMI rising edge as a latched frame signal.
//!
//! The host display/input layer is not called from here: `tick` reports the
//! rising edge and also latches it, and the owner of the bus runs the frame
//! callback outside.

use crate::joypads::Joypad;
use crate::joypads::spec_joypad_read;
use crate::joypads::spec_joypad_write;
use crate::ppu::PPU;
use crate::ppu::PpuV;
use crate::ppu::spec_fresh_ppu;
use crate::ppu::spec_read_data;
use crate::ppu::spec_read_status;
use crate::ppu::spec_tick;
use crate::ppu::spec_write_controller;
use crate::ppu::spec_write_data;
use crate::ppu::spec_write_oam_data;
use crate::ppu::spec_write_oam_dma;
use crate::rom::Rom;
use vstd::prelude::*;

verus! {

/// The system bus.
pub struct Bus {
    pub cpu_vram: Vec<u8>,
    pub prg_rom: Vec<u8>,
    pub ppu: PPU,
    pub cycles: usize,
    pub joypad1: Joypad,
    pub frame_pending: bool,
    pub fault: bool,
}

/// The mathematical view of the bus.
#[verifier::ext_equal]
pub struct BusV {
    pub ram: Seq<u8>,
    pub prg: Seq<u8>,
    pub ppu: PpuV,
    pub cycles: usize,
    pub joypad1: Joypad,
    pub frame_pending: bool,
    pub fault: bool,
}

impl View for Bus {
    type V = BusV;

    open spec fn view(&self) -> BusV {
        BusV {
            ram: self.cpu_vram@,
            prg: self.prg_rom@,
            ppu: self.ppu@,
            cycles: self.cycles,
            joypad1: self.joypad1,
            frame_pending: self.frame_pending,
            fault: self.fault,
        }
    }
}

impl BusV {
    /// Well-formedness: 2 KiB of RAM, a 16 or 32 KiB program window, and a
    /// well-formed PPU.
    pub open spec fn wf(self) -> bool {
        &&& self.ram.len() == 0x800
        &&& (self.prg.len() == 0x4000 || self.prg.len() == 0x8000)
        &&& self.ppu.wf()
    }
}

/// Whether the machine has hit a fatal condition, on the bus itself or
/// inside the PPU.
pub open spec fn spec_bus_fault(b: BusV) -> bool {
    b.fault || b.ppu.fault
}

/// A program-ROM fetch: a 16 KiB image is mirrored across the 32 KiB window.
pub open spec fn spec_read_prg(prg: Seq<u8>, addr: u16) -> u8 {
    let off = (addr - 0x8000) as int;
    if prg.len() == 0x4000 && off >= 0x4000 {
        prg[off % 0x4000]
    } else {
        prg[off]
    }
}

/// One read through the address decoder. RAM mirrors through the low 11
/// bits; the PPU registers mirror through the low 3 bits; reads from
/// write-only registers, the audio range, the second controller and the
/// unmapped window return zero.
#[verifier::opaque]
pub open spec fn spec_bus_read(b: BusV, addr: u16) -> (BusV, u8) {
    if addr <= 0x1fff {
        (b, b.ram[(addr % 0x800) as int])
    } else if addr <= 0x3fff {
        let reg = (0x2000 + addr % 8) as u16;
        if reg == 0x2002 {
            let (p, v) = spec_read_status(b.ppu);
            (BusV { ppu: p, ..b }, v)
        } else if reg == 0x2004 {
            (b, b.ppu.oam[b.ppu.oam_address as int])
        } else if reg == 0x2007 {
            let (p, v) = spec_read_data(b.ppu);
            (BusV { ppu: p, ..b }, v)
        } else {
            (b, 0)
        }
    } else if addr <= 0x4015 {
        (b, 0)
    } else if addr == 0x4016 {
        let (j, v) = spec_joypad_read(b.joypad1);
        (BusV { joypad1: j, ..b }, v)
    } else if addr == 0x4017 {
        (b, 0)
    } else if addr >= 0x8000 {
        (b, spec_read_prg(b.prg, addr))
    } else {
        (b, 0)
    }
}

/// The 256 reads of an OAM DMA transfer, through the bus's own read path,
/// beginning at `hi + i`.
pub open spec fn spec_dma_gather(b: BusV, hi: u16, i: int) -> (BusV, Seq<u8>)
    decreases 256 - i,
{
    if i < 0 || i >= 256 {
        (b, Seq::empty())
    } else {
        let (b1, v) = spec_bus_read(b, (hi + i) as u16);
        let (b2, rest) = spec_dma_gather(b1, hi, i + 1);
        (b2, seq![v] + rest)
    }
}

/// One write through the address decoder. Writes to the status register or
/// into the program window are fatal; the audio range, the second controller
/// and the unmapped window swallow writes.
#[verifier::opaque]
pub open spec fn spec_bus_write(b: BusV, addr: u16, data: u8) -> BusV {
    if addr <= 0x1fff {
        BusV { ram: b.ram.update((addr % 0x800) as int, data), ..b }
    } else if addr <= 0x3fff {
        let reg = (0x2000 + addr % 8) as u16;
        if reg == 0x2000 {
            BusV { ppu: spec_write_controller(b.ppu, data), ..b }
        } else if reg == 0x2001 {
            BusV { ppu: (PpuV { mask: data, ..b.ppu }), ..b }
        } else if reg == 0x2002 {
            BusV { fault: true, ..b }
        } else if reg == 0x2003 {
            BusV { ppu: (PpuV { oam_address: data, ..b.ppu }), ..b }
        } else if reg == 0x2004 {
            BusV { ppu: spec_write_oam_data(b.ppu, data), ..b }
        } else if reg == 0x2005 {
            BusV {
                ppu: (PpuV {
                    scroll: crate::scroll_register::spec_scroll_write(b.ppu.scroll, data),
                    ..b.ppu
                }),
                ..b
            }
        } else if reg == 0x2006 {
            BusV {
                ppu: (PpuV {
                    address: crate::address_register::spec_addr_update(b.ppu.address, data),
                    ..b.ppu
                }),
                ..b
            }
        } else {
            BusV { ppu: spec_write_data(b.ppu, data), ..b }
        }
    } else if addr == 0x4014 {
        let (b1, buffer) = spec_dma_gather(b, ((data as int) * 256) as u16, 0);
        BusV { ppu: spec_write_oam_dma(b1.ppu, buffer), ..b1 }
    } else if addr <= 0x4015 {
        b
    } else if addr == 0x4016 {
        BusV { joypad1: spec_joypad_write(b.joypad1, data), ..b }
    } else if addr == 0x4017 {
        b
    } else if addr >= 0x8000 {
        BusV { fault: true, ..b }
    } else {
        b
    }
}

/// A 16-bit little-endian read: low byte first, then the wrapped successor
/// address.
pub open spec fn spec_bus_read16(b: BusV, pos: u16) -> (BusV, u16) {
    let (b1, lo) = spec_bus_read(b, pos);
    let (b2, hi) = spec_bus_read(b1, pos.wrapping_add(1));
    (b2, (hi * 256 + lo) as u16)
}

/// A 16-bit little-endian write: low byte first, then the wrapped successor
/// address.
pub open spec fn spec_bus_write16(b: BusV, pos: u16, data: u16) -> BusV {
    let b1 = spec_bus_write(b, pos, (data % 256) as u8);
    spec_bus_write(b1, pos.wrapping_add(1), (data / 256) as u8)
}

/// The clock coupling: the instruction's cycles accumulate, the PPU advances
/// by three dots per CPU cycle, and an NMI rising edge latches the frame
/// signal for the host.
pub open spec fn spec_bus_tick(b: BusV, cycles: u8) -> (BusV, bool) {
    let before = b.ppu.nmi_interrupt is Some;
    let p2 = spec_tick(b.ppu, (3 * cycles) as u8).0;
    let edge = !before && (p2.nmi_interrupt is Some);
    (
        BusV {
            ppu: p2,
            cycles: b.cycles.wrapping_add(cycles as usize),
            frame_pending: b.frame_pending || edge,
            ..b
        },
        edge,
    )
}

impl Bus {
    /// A bus over a freshly inserted cartridge: cleared RAM, a fresh PPU over
    /// the cartridge's character ROM, no cycles counted, no frame pending.
    pub fn new(rom: Rom) -> (b: Bus)
        requires
            rom.wf(),
        ensures
            b@ == (BusV {
                ram: Seq::new(0x800, |_i: int| 0u8),
                prg: rom.prg_rom@,
                ppu: spec_fresh_ppu(rom.chr_rom@, rom.screen_mirroring),
                cycles: 0,
                joypad1: (Joypad { button_status: 0, strobe: false, bidx: 0 }),
                frame_pending: false,
                fault: false,
            }),
            b@.wf(),
    {
        let ghost prg0 = rom.prg_rom@;
        let ghost chr0 = rom.chr_rom@;
        let ppu = PPU::new(rom.chr_rom, rom.screen_mirroring);
        let b = Bus {
            cpu_vram: crate::ppu::zeroed(0x800),
            prg_rom: rom.prg_rom,
            ppu,
            cycles: 0,
            joypad1: Joypad::new(),
            frame_pending: false,
            fault: false,
        };
        proof {
            assert(b@ =~= (BusV {
                ram: Seq::new(0x800, |_i: int| 0u8),
                prg: prg0,
                ppu: spec_fresh_ppu(chr0, rom.screen_mirroring),
                cycles: 0,
                joypad1: (Joypad { button_status: 0, strobe: false, bidx: 0 }),
                frame_pending: false,
                fault: false,
            }));
        }
        b
    }

    fn read_prg_rom(&self, addr: u16) -> (r: u8)
        requires
            self@.wf(),
            0x8000 <= addr,
        ensures
            r == spec_read_prg(self@.prg, addr),
    {
        let mut a = addr - 0x8000;
        if self.prg_rom.len() == 0x4000 && a >= 0x4000 {
            a = a % 0x4000;
        }
        self.prg_rom[a as usize]
    }

    /// Whether the machine has hit a fatal condition.
    pub fn faulted(&self) -> (r: bool)
        ensures
            r == spec_bus_fault(self@),
    {
        self.fault || self.ppu.fault
    }

    /// Advances the machine clock after one instruction; reports (and
    /// latches) whether the NMI rising edge fired, which is the host's cue to
    /// render a frame and poll input.
    pub fn tick(&mut self, cycles: u8) -> (frame_edge: bool)
        requires
            old(self)@.wf(),
            cycles <= 85,
        ensures
            (final(self)@, frame_edge) == spec_bus_tick(old(self)@, cycles),
            final(self)@.wf(),
    {
        self.cycles = self.cycles.wrapping_add(cycles as usize);
        let before_nmi = self.ppu.nmi_interrupt.is_some();
        let _scan_wrap = self.ppu.tick(cycles * 3);
        let after_nmi = self.ppu.nmi_interrupt.is_some();
        let edge = !before_nmi && after_nmi;
        if edge {
            self.frame_pending = true;
        }
        edge
    }

    /// Takes the latched frame signal, clearing it.
    pub fn take_frame(&mut self) -> (r: bool)
        ensures
            r == old(self)@.frame_pending,
            final(self)@ == (BusV { frame_pending: false, ..old(self)@ }),
    {
        let r = self.frame_pending;
        self.frame_pending = false;
        r
    }

    /// Takes the pending NMI from the PPU, clearing it.
    pub fn poll_nmi(&mut self) -> (r: Option<u8>)
        ensures
            r == old(self)@.ppu.nmi_interrupt,
            final(self)@ == (BusV {
                ppu: (PpuV { nmi_interrupt: None, ..old(self)@.ppu }),
                ..old(self)@
            }),
    {
        self.ppu.poll_nmi()
    }

    /// One read through the address decoder.
    pub fn mem_read(&mut self, addr: u16) -> (r: u8)
        requires
            old(self)@.wf(),
        ensures
            (final(self)@, r) == spec_bus_read(old(self)@, addr),
            final(self)@.wf(),
    {
        proof {
            reveal(spec_bus_read);
        }
        if addr <= 0x1fff {
            self.cpu_vram[(addr % 0x800) as usize]
        } else if addr <= 0x3fff {
            let reg = 0x2000 + addr % 8;
            if reg == 0x2002 {
                self.ppu.read_status()
            } else if reg == 0x2004 {
                self.ppu.read_oam_data()
            } else if reg == 0x2007 {
                self.ppu.read_data()
            } else {
                0
            }
        } else if addr <= 0x4015 {
            0
        } else if addr == 0x4016 {
            self.joypad1.read()
        } else if addr == 0x4017 {
            0
        } else if addr >= 0x8000 {
            self.read_prg_rom(addr)
        } else {
            0
        }
    }

    fn oam_dma(&mut self, data: u8)
        requires
            old(self)@.wf(),
        ensures
            final(self)@ == ({
                let (b1, buffer) = spec_dma_gather(old(self)@, ((data as int) * 256) as u16, 0);
                BusV { ppu: spec_write_oam_dma(b1.ppu, buffer), ..b1 }
            }),
            final(self)@.wf(),
    {
        let ghost b0 = self@;
        let hi: u16 = (data as u16) * 256;
        let mut buffer: Vec<u8> = Vec::new();
        let mut i: usize = 0;
        while i < 256
            invariant
                0 <= i <= 256,
                buffer@.len() == i,
                self@.wf(),
                spec_dma_gather(b0, hi, 0).0 == spec_dma_gather(self@, hi, i as int).0,
                spec_dma_gather(b0, hi, 0).1 =~= buffer@ + spec_dma_gather(self@, hi, i as int).1,
                hi == (data as u16) * 256,
            decreases 256 - i,
        {
            let ghost bpre = self@;
            let v = self.mem_read(hi + (i as u16));
            buffer.push(v);
            proof {
                assert(spec_dma_gather(bpre, hi, i as int).0 == spec_dma_gather(
                    self@,
                    hi,
                    i as int + 1,
                ).0);
                assert(spec_dma_gather(bpre, hi, i as int).1 =~= seq![v] + spec_dma_gather(
                    self@,
                    hi,
                    i as int + 1,
                ).1);
            }
            i = i + 1;
        }
        self.ppu.write_oam_dma(&buffer);
    }

    /// One write through the address decoder.
    pub fn mem_write(&mut self, addr: u16, data: u8)
        requires
            old(self)@.wf(),
        ensures
            final(self)@ == spec_bus_write(old(self)@, addr, data),
            final(self)@.wf(),
    {
        proof {
            reveal(spec_bus_write);
        }
        if addr <= 0x1fff {
            self.cpu_vram.set((addr % 0x800) as usize, data);
        } else if addr <= 0x3fff {
            let reg = 0x2000 + addr % 8;
            if reg == 0x2000 {
                self.ppu.write_controller(data);
            } else if reg == 0x2001 {
                self.ppu.write_mask(data);
            } else if reg == 0x2002 {
                self.fault = true;
            } else if reg == 0x2003 {
                self.ppu.write_oam_address(data);
            } else if reg == 0x2004 {
                self.ppu.write_oam_data(data);
            } else if reg == 0x2005 {
                self.ppu.write_scroll(data);
            } else if reg == 0x2006 {
                self.ppu.write_ppu_address(data);
            } else {
                self.ppu.write_data(data);
            }
        } else if addr == 0x4014 {
            self.oam_dma(data);
        } else if addr <= 0x4015 {
        } else if addr == 0x4016 {
            self.joypad1.write(data);
        } else if addr == 0x4017 {
        } else if addr >= 0x8000 {
            self.fault = true;
        }
    }

    /// A 16-bit little-endian read.
    pub fn mem_read_u16(&mut self, pos: u16) -> (r: u16)
        requires
            old(self)@.wf(),
        ensures
            (final(self)@, r) == spec_bus_read16(old(self)@, pos),
            final(self)@.wf(),
    {
        let lo = self.mem_read(pos) as u16;
        let hi = self.mem_read(pos.wrapping_add(1)) as u16;
        hi * 256 + lo
    }

    /// A 16-bit little-endian write.
    pub fn mem_write_u16(&mut self, pos: u16, data: u16)
        requires
            old(self)@.wf(),
        ensures
            final(self)@ == spec_bus_write16(old(self)@, pos, data),
            final(self)@.wf(),
    {
        let hi = (data / 256) as u8;
        let lo = (data % 256) as u8;
        self.mem_write(pos, lo);
        self.mem_write(pos.wrapping_add(1), hi);
    }
}

/// A byte written into RAM reads back unchanged, at the written address.
pub proof fn lemma_ram_round_trip(b: BusV, addr: u16, data: u8)
    requires
        b.wf(),
        addr <= 0x1fff,
    ensures
        spec_bus_read(spec_bus_write(b, addr, data), addr).1 == data,
{
    reveal(spec_bus_read);
    reveal(spec_bus_write);
}

/// The RAM window repeats every 2 KiB: reading a mirror offset is the same
/// read, state change included, as reading the base address.
pub proof fn lemma_ram_mirror(b: BusV, addr: u16, k: u16)
    requires
        b.wf(),
        addr <= 0x7ff,
        k == 0 || k == 0x800 || k == 0x1000 || k == 0x1800,
    ensures
        spec_bus_read(b, (addr + k) as u16) == spec_bus_read(b, addr),
{
    reveal(spec_bus_read);
}

/// The PPU register window repeats every 8 bytes up to `0x3fff`: reading a
/// mirror of a register is the same read, state change included, as reading
/// the register itself.
pub proof fn lemma_ppu_register_mirror(b: BusV, r: u16, k: u16)
    requires
        b.wf(),
        r <= 7,
        k % 8 == 0,
        k <= 0x1ff8,
    ensures
        spec_bus_read(b, (0x2000 + r + k) as u16) == spec_bus_read(b, (0x2000 + r) as u16),
{
    reveal(spec_bus_read);
    assert((0x2000 + r + k) as u16 % 8 == r);
    assert((0x2000 + r) as u16 % 8 == r);
}

} // verus!
