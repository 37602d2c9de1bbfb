use nes_core::bus::Bus;
use nes_core::frame::Frame;
use nes_core::joypads::Button;
use nes_core::joypads::Joypad;
use nes_core::render::render;
use nes_core::rom::Mirroring;
use nes_core::rom::Rom;

fn test_rom() -> Rom {
    Rom {
        prg_rom: vec![0; 0x8000],
        chr_rom: vec![0; 0x2000],
        screen_mirroring: Mirroring::Vertical,
    }
}

fn test_bus() -> Bus {
    Bus::new(test_rom())
}

#[test]
fn ram_write_read_round_trip() {
    let mut bus = test_bus();
    bus.mem_write(0x0000, 0xaa);
    bus.mem_write(0x07ff, 0x55);
    bus.mem_write(0x0123, 0x42);
    assert_eq!(bus.mem_read(0x0000), 0xaa);
    assert_eq!(bus.mem_read(0x07ff), 0x55);
    assert_eq!(bus.mem_read(0x0123), 0x42);
}

#[test]
fn ram_mirrors_every_2k() {
    let mut bus = test_bus();
    bus.mem_write(0x0234, 0x99);
    assert_eq!(bus.mem_read(0x0234), 0x99);
    assert_eq!(bus.mem_read(0x0a34), 0x99);
    assert_eq!(bus.mem_read(0x1234), 0x99);
    assert_eq!(bus.mem_read(0x1a34), 0x99);
    // A write through a mirror lands in the same cell.
    bus.mem_write(0x1a34, 0x77);
    assert_eq!(bus.mem_read(0x0234), 0x77);
}

#[test]
fn ppu_registers_mirror_every_8_bytes() {
    let mut bus = test_bus();
    // Set vblank, then read the status register through a high mirror: the
    // pre-clear snapshot comes back and vblank is cleared, exactly as a read
    // of 0x2002 itself.
    bus.ppu.status.enable_flag(&nes_core::status_register::StatusFlag::VBlank);
    let snapshot = bus.mem_read(0x3ffa);
    assert_ne!(snapshot & 0x80, 0);
    assert_eq!(bus.mem_read(0x2002) & 0x80, 0);
    // A controller write through a mirror behaves as a write to 0x2000.
    bus.mem_write(0x2008, 0x80);
    assert_eq!(bus.ppu.controller.cregister, 0x80);
}

#[test]
fn write_only_registers_read_zero() {
    let mut bus = test_bus();
    bus.mem_write(0x2000, 0xff);
    assert_eq!(bus.mem_read(0x2000), 0);
    assert_eq!(bus.mem_read(0x2001), 0);
    assert_eq!(bus.mem_read(0x2005), 0);
    assert_eq!(bus.mem_read(0x2006), 0);
}

#[test]
fn apu_and_unmapped_windows() {
    let mut bus = test_bus();
    bus.mem_write(0x4000, 0x12);
    bus.mem_write(0x5000, 0x12);
    assert_eq!(bus.mem_read(0x4000), 0);
    assert_eq!(bus.mem_read(0x4015), 0);
    assert_eq!(bus.mem_read(0x4017), 0);
    assert_eq!(bus.mem_read(0x5000), 0);
    assert!(!bus.faulted());
}

#[test]
fn prg_rom_mirrors_16k_images() {
    let mut rom = test_rom();
    rom.prg_rom = vec![0; 0x4000];
    rom.prg_rom[0x0123] = 0xab;
    let mut bus = Bus::new(rom);
    assert_eq!(bus.mem_read(0x8123), 0xab);
    assert_eq!(bus.mem_read(0xc123), 0xab);
    // A 32 KiB image fills the window without mirroring.
    let mut rom = test_rom();
    rom.prg_rom[0x0123] = 0x01;
    rom.prg_rom[0x4123] = 0x02;
    let mut bus = Bus::new(rom);
    assert_eq!(bus.mem_read(0x8123), 0x01);
    assert_eq!(bus.mem_read(0xc123), 0x02);
}

#[test]
fn status_write_faults() {
    let mut bus = test_bus();
    bus.mem_write(0x2002, 1);
    assert!(bus.faulted());
}

#[test]
fn oam_dma_copies_a_page() {
    let mut bus = test_bus();
    for i in 0..256u16 {
        bus.mem_write(0x0200 + i, (i as u8).wrapping_add(3));
    }
    bus.mem_write(0x2003, 0x00);
    bus.mem_write(0x4014, 0x02);
    assert_eq!(bus.ppu.oam_data[0], 3);
    assert_eq!(bus.ppu.oam_data[255], 2);
    assert_eq!(bus.mem_read(0x2004), 3);
}

#[test]
fn bus_tick_advances_ppu_three_to_one() {
    let mut bus = test_bus();
    bus.tick(10);
    assert_eq!(bus.cycles, 10);
    assert_eq!(bus.ppu.cycles, 30);
    assert_eq!(bus.ppu.scanline, 0);
}

#[test]
fn frame_edge_latches_once_per_vblank_entry() {
    let mut bus = test_bus();
    bus.mem_write(0x2000, 0x80);
    let mut edges = 0;
    // 241 scanlines of 341 dots need 241 * 341 / 3 CPU cycles, and a little
    // more rounds the division up.
    let mut budget = 241 * 341 / 3 + 2;
    while budget > 0 {
        if bus.tick(20) {
            edges += 1;
        }
        budget -= 20;
    }
    assert_eq!(edges, 1);
    assert!(bus.take_frame());
    assert!(!bus.take_frame());
    assert_eq!(bus.poll_nmi(), Some(1));
    assert_eq!(bus.poll_nmi(), None);
}

#[test]
fn controller_port_strobe_and_shift() {
    let mut bus = test_bus();
    bus.joypad1.set_button(&Button::A, true);
    // With the strobe high the first bit comes out repeatedly.
    bus.mem_write(0x4016, 1);
    assert_eq!(bus.mem_read(0x4016), 1);
    assert_eq!(bus.mem_read(0x4016), 1);
    // Dropping the strobe shifts through the eight buttons.
    bus.mem_write(0x4016, 0);
    assert_eq!(bus.mem_read(0x4016), 1);
    for _ in 0..7 {
        assert_eq!(bus.mem_read(0x4016), 0);
    }
    // Past the eighth bit the line reads one.
    assert_eq!(bus.mem_read(0x4016), 1);
    assert_eq!(bus.mem_read(0x4016), 1);
}

#[test]
fn joypad_set_button_replaces_field() {
    let mut pad = Joypad::new();
    pad.set_button(&Button::Start, true);
    assert_eq!(pad.button_status, 0b0000_1000);
    // A second press replaces the whole field rather than adding a bit.
    pad.set_button(&Button::A, true);
    assert_eq!(pad.button_status, 0b0000_0001);
    pad.set_button(&Button::A, false);
    assert_eq!(pad.button_status, 0);
    assert_eq!(pad.get_button(&Button::Right), 0b1000_0000);
    assert_eq!(pad.get_button(&Button::Neutral), 0);
}

#[test]
fn frame_set_pixel_bounds() {
    let mut frame = Frame::new();
    assert_eq!(frame.data.len(), 256 * 240 * 3);
    frame.set_pixel(1, 0, (10, 20, 30));
    assert_eq!(frame.data[3], 10);
    assert_eq!(frame.data[4], 20);
    assert_eq!(frame.data[5], 30);
    // A write past the buffer is dropped.
    frame.set_pixel(255, 240, (1, 2, 3));
    assert_eq!(frame.data[256 * 240 * 3 - 1], 0);
}

#[test]
fn render_blank_ppu_paints_backdrop() {
    let ppu = nes_core::ppu::PPU::new(vec![0; 0x2000], Mirroring::Vertical);
    let mut frame = Frame::new();
    render(&ppu, &mut frame);
    // Palette entry zero is zero, and system colour zero is mid grey; every
    // background pixel takes it, and all-zero sprites are transparent.
    assert_eq!(frame.data[0], 0x80);
    assert_eq!(frame.data[1], 0x80);
    assert_eq!(frame.data[2], 0x80);
    let last = 239 * 256 * 3 + 255 * 3;
    assert_eq!(frame.data[last], 0x80);
}

#[test]
fn render_draws_a_tile_and_a_sprite() {
    let mut chr = vec![0; 0x2000];
    // Tile 1: the top row's leftmost pixel has colour value 1 (upper plane).
    chr[16] = 0b1000_0000;
    let mut ppu = nes_core::ppu::PPU::new(chr, Mirroring::Vertical);
    // The first nametable entry selects tile 1.
    ppu.vram[0] = 1;
    // Background palette 0, colour 1 -> system colour 0x01 (dark blue).
    ppu.palette[1] = 0x01;
    // Sprite palette 0, colour 1 -> system colour 0x20 (white).
    ppu.palette[0x11] = 0x20;
    // Sprite 0 uses tile 1 at (16, 8), no flips.
    ppu.oam_data[0] = 8;
    ppu.oam_data[1] = 1;
    ppu.oam_data[2] = 0;
    ppu.oam_data[3] = 16;
    let mut frame = Frame::new();
    render(&ppu, &mut frame);
    // Background pixel (0, 0) took background palette colour 1.
    assert_eq!(frame.data[0], 0x00);
    assert_eq!(frame.data[1], 0x3d);
    assert_eq!(frame.data[2], 0xa6);
    // Sprite pixel (16, 8) took sprite palette colour 1 (white).
    let at = 8 * 256 * 3 + 16 * 3;
    assert_eq!(frame.data[at], 0xff);
    assert_eq!(frame.data[at + 1], 0xff);
    assert_eq!(frame.data[at + 2], 0xff);
    // A transparent sprite pixel leaves the backdrop visible.
    let beside = 8 * 256 * 3 + 17 * 3;
    assert_eq!(frame.data[beside], 0x80);
}

#[test]
fn pulse_channel_starts_cleared() {
    let p = nes_core::pulse::Pulse::new();
    assert_eq!(p.bits0, 0);
    assert_eq!(p.bits1, 0);
    assert_eq!(p.bits2, 0);
    assert_eq!(p.bits3, 0);
}

#[test]
fn mem_read_u16_is_little_endian() {
    let mut bus = test_bus();
    bus.mem_write_u16(0x0200, 0x1234);
    assert_eq!(bus.mem_read(0x0200), 0x34);
    assert_eq!(bus.mem_read(0x0201), 0x12);
    assert_eq!(bus.mem_read_u16(0x0200), 0x1234);
}
