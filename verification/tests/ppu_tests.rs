use nes_core::controller_register::ControllerRegister;
use nes_core::mask_register::Color;
use nes_core::mask_register::MaskFlag;
use nes_core::mask_register::MaskRegister;
use nes_core::ppu::PPU;
use nes_core::rom::Mirroring;
use nes_core::status_register::StatusFlag;
use nes_core::status_register::StatusRegister;

fn fresh_ppu() -> PPU {
    PPU::new(vec![0; 0x2000], Mirroring::Vertical)
}

fn advance_dots(ppu: &mut PPU, mut dots: u32) {
    while dots > 0 {
        let chunk = if dots > 255 { 255 } else { dots as u8 };
        ppu.tick(chunk);
        dots -= chunk as u32;
    }
}

#[test]
fn buffered_read_is_one_behind() {
    let mut ppu = fresh_ppu();
    ppu.vram[0] = 0x11;
    ppu.vram[1] = 0x22;
    ppu.write_ppu_address(0x20);
    ppu.write_ppu_address(0x00);
    assert_eq!(ppu.read_data(), 0x00);
    assert_eq!(ppu.read_data(), 0x11);
    assert_eq!(ppu.read_data(), 0x22);
}

#[test]
fn vblank_and_nmi_edge() {
    let mut ppu = fresh_ppu();
    ppu.write_controller(0x80);
    advance_dots(&mut ppu, 241 * 341);
    assert!(ppu.status.get_register_status(&StatusFlag::VBlank));
    assert_eq!(ppu.poll_nmi(), Some(1));
    assert_eq!(ppu.poll_nmi(), None);
}

#[test]
fn vblank_without_nmi_enable_raises_nothing() {
    let mut ppu = fresh_ppu();
    advance_dots(&mut ppu, 241 * 341);
    assert!(ppu.status.get_register_status(&StatusFlag::VBlank));
    assert_eq!(ppu.poll_nmi(), None);
    // Raising NMI-enable while vblank is still set raises the pending NMI.
    ppu.write_controller(0x80);
    assert_eq!(ppu.poll_nmi(), Some(1));
}

#[test]
fn frame_wrap_clears_vblank() {
    let mut ppu = fresh_ppu();
    ppu.write_controller(0x80);
    advance_dots(&mut ppu, 262 * 341);
    assert!(!ppu.status.get_register_status(&StatusFlag::VBlank));
    assert_eq!(ppu.poll_nmi(), None);
    assert_eq!(ppu.scanline, 0);
    assert_eq!(ppu.cycles, 0);
}

#[test]
fn tick_counters_follow_dots() {
    let mut ppu = fresh_ppu();
    advance_dots(&mut ppu, 3 * 341 + 17);
    assert_eq!(ppu.scanline, 3);
    assert_eq!(ppu.cycles, 17);
}

#[test]
fn status_read_clears_vblank_and_both_latches() {
    let mut ppu = fresh_ppu();
    ppu.status.enable_flag(&StatusFlag::VBlank);
    // One write into the address register leaves its latch on the low byte,
    // and one scroll write leaves that latch on the Y byte.
    ppu.write_ppu_address(0x21);
    ppu.write_scroll(0x33);
    let snapshot = ppu.read_status();
    assert_ne!(snapshot & 0x80, 0);
    assert!(!ppu.status.get_register_status(&StatusFlag::VBlank));
    // The next address writes behave as a fresh high/low pair.
    ppu.write_ppu_address(0x3f);
    ppu.write_ppu_address(0x00);
    assert_eq!(ppu.address.get(), 0x3f00);
    // The next scroll write lands on the X byte again, not the Y byte the
    // pre-read latch position would have chosen.
    ppu.write_scroll(0x44);
    assert_eq!(ppu.scroll.xscroll, 0x44);
    assert_eq!(ppu.scroll.yscroll, 0x00);
}

#[test]
fn address_register_masks_to_14_bits() {
    let mut ppu = fresh_ppu();
    ppu.write_ppu_address(0xff);
    ppu.write_ppu_address(0xff);
    assert_eq!(ppu.address.get(), 0x3fff);
    let mut ppu = fresh_ppu();
    ppu.write_ppu_address(0x21);
    ppu.write_ppu_address(0x08);
    assert_eq!(ppu.address.get(), 0x2108);
}

#[test]
fn data_write_and_read_back_through_mirroring() {
    let mut ppu = fresh_ppu();
    // Vertical mirroring: 0x2800 folds onto VRAM index 0.
    ppu.write_ppu_address(0x28);
    ppu.write_ppu_address(0x00);
    ppu.write_data(0x5d);
    assert_eq!(ppu.vram[0], 0x5d);
    ppu.write_ppu_address(0x20);
    ppu.write_ppu_address(0x00);
    let _stale = ppu.read_data();
    assert_eq!(ppu.read_data(), 0x5d);
}

#[test]
fn horizontal_mirroring_folds_nametable_one() {
    let mut ppu = PPU::new(vec![0; 0x2000], Mirroring::Horizontal);
    assert_eq!(ppu.mirror_address(0x2400), 0x0000);
    assert_eq!(ppu.mirror_address(0x2000), 0x0000);
    assert_eq!(ppu.mirror_address(0x2800), 0x0400);
    // The fold applies on the data path too.
    ppu.write_ppu_address(0x24);
    ppu.write_ppu_address(0x10);
    ppu.write_data(0x99);
    assert_eq!(ppu.vram[0x10], 0x99);
}

#[test]
fn vertical_mirroring_map() {
    let ppu = fresh_ppu();
    assert_eq!(ppu.mirror_address(0x2000), 0x0000);
    assert_eq!(ppu.mirror_address(0x2400), 0x0400);
    assert_eq!(ppu.mirror_address(0x2800), 0x0000);
    assert_eq!(ppu.mirror_address(0x2c00), 0x0400);
    // The 0x3000 window folds down first.
    assert_eq!(ppu.mirror_address(0x3000), 0x0000);
}

#[test]
fn palette_mirrors_resolve_on_both_sides() {
    let mut ppu = fresh_ppu();
    ppu.write_ppu_address(0x3f);
    ppu.write_ppu_address(0x10);
    ppu.write_data(0x2a);
    assert_eq!(ppu.palette[0], 0x2a);
    ppu.write_ppu_address(0x3f);
    ppu.write_ppu_address(0x00);
    assert_eq!(ppu.read_data(), 0x2a);
}

#[test]
fn palette_read_is_unbuffered() {
    let mut ppu = fresh_ppu();
    ppu.write_ppu_address(0x3f);
    ppu.write_ppu_address(0x05);
    ppu.write_data(0x17);
    ppu.write_ppu_address(0x3f);
    ppu.write_ppu_address(0x05);
    assert_eq!(ppu.read_data(), 0x17);
}

#[test]
fn vram_increment_stride_follows_controller() {
    let mut ppu = fresh_ppu();
    ppu.write_controller(0b0000_0100);
    ppu.write_ppu_address(0x20);
    ppu.write_ppu_address(0x00);
    ppu.write_data(1);
    assert_eq!(ppu.address.get(), 0x2020);
    assert_eq!(ppu.vram[0], 1);
}

#[test]
fn oam_write_read_and_dma() {
    let mut ppu = fresh_ppu();
    ppu.write_oam_address(0x10);
    ppu.write_oam_data(0x42);
    assert_eq!(ppu.oam_address, 0x11);
    ppu.write_oam_address(0x10);
    assert_eq!(ppu.read_oam_data(), 0x42);
    // DMA fills all 256 bytes beginning at the current OAM address.
    let mut page = Vec::new();
    for i in 0..256usize {
        page.push(i as u8);
    }
    ppu.write_oam_address(0x80);
    ppu.write_oam_dma(&page);
    assert_eq!(ppu.oam_address, 0x80);
    assert_eq!(ppu.oam_data[0x80], 0);
    assert_eq!(ppu.oam_data[0xff], 0x7f);
    assert_eq!(ppu.oam_data[0x00], 0x80);
    assert_eq!(ppu.oam_data[0x7f], 0xff);
}

#[test]
fn chr_write_faults() {
    let mut ppu = fresh_ppu();
    ppu.write_ppu_address(0x10);
    ppu.write_ppu_address(0x00);
    ppu.write_data(1);
    assert!(ppu.fault);
}

#[test]
fn folded_window_mirrors_into_the_nametables() {
    // The 0x3000..=0x3eff window folds onto 0x2000..=0x2eff on the data path:
    // a write through it lands in VRAM and reads back through either window.
    let mut ppu = fresh_ppu();
    ppu.write_ppu_address(0x30);
    ppu.write_ppu_address(0x07);
    ppu.write_data(0x6b);
    assert_eq!(ppu.vram[7], 0x6b);
    ppu.write_ppu_address(0x20);
    ppu.write_ppu_address(0x07);
    let _stale = ppu.read_data();
    assert_eq!(ppu.read_data(), 0x6b);
    assert!(!ppu.fault);
}

#[test]
fn palette_index_past_the_file_faults() {
    let mut ppu = fresh_ppu();
    ppu.write_ppu_address(0x3f);
    ppu.write_ppu_address(0x20);
    let _zero = ppu.read_data();
    assert!(ppu.fault);
}

#[test]
fn controller_register_fields() {
    let mut c = ControllerRegister::new();
    c.update(0b1010_0101);
    assert_eq!(c.nametable_address(), 0x2400);
    assert!(c.vram_address_inc() == 32);
    assert_eq!(c.sprite_address(), 0x0000);
    assert_eq!(c.background_address(), 0x0000);
    assert_eq!(c.sprite_size(), 16);
    assert_eq!(c.ms_select(), 0);
    assert!(c.generate_nmi());
    c.update(0b0000_0011);
    assert_eq!(c.nametable_address(), 0x2c00);
    assert_eq!(c.vram_address_inc(), 1);
    assert!(!c.generate_nmi());
}

#[test]
fn mask_register_emphasis() {
    let mut m = MaskRegister::new();
    m.update(0b1010_1001);
    assert!(m.get_register_status(&MaskFlag::Greyscale));
    assert!(m.get_register_status(&MaskFlag::Background));
    assert!(!m.get_register_status(&MaskFlag::Sprite));
    let emphasised = m.emphasise();
    assert_eq!(emphasised, vec![Color::Blue, Color::Red]);
}

#[test]
fn status_register_bits() {
    let mut s = StatusRegister::new();
    s.enable_flag(&StatusFlag::SpriteOverflow);
    s.enable_flag(&StatusFlag::VBlank);
    assert_eq!(s.snapshot(), 0b1010_0000);
    s.disable_flag(&StatusFlag::SpriteOverflow);
    assert_eq!(s.snapshot(), 0b1000_0000);
    assert!(s.get_register_status(&StatusFlag::VBlank));
    assert!(!s.get_register_status(&StatusFlag::SpriteZero));
}
