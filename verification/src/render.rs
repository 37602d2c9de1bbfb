//! The frame renderer: a pure function from a PPU snapshot to the RGB frame
//! buffer. Background tiles of the first nametable are painted in order,
//! then the 64 sprites from the last to the first, so that lower sprite
//! indices overdraw higher ones; sprite colour zero is transparent.

use crate::controller_register::ControllerFlag;
use crate::controller_register::controller_flag_set;
use crate::frame::Frame;
use crate::frame::spec_set_pixel;
use crate::ppu::PPU;
use crate::ppu::PpuV;
use vstd::prelude::*;

verus! {

/// The fixed 64-colour system palette; an index is taken modulo 64, as the
/// hardware's six palette bits would.
pub open spec fn spec_system_palette(idx: u8) -> (u8, u8, u8) {
    match idx % 64 {
        0 => (0x80, 0x80, 0x80),
        1 => (0x00, 0x3d, 0xa6),
        2 => (0x00, 0x12, 0xb0),
        3 => (0x44, 0x00, 0x96),
        4 => (0xa1, 0x00, 0x5e),
        5 => (0xc7, 0x00, 0x28),
        6 => (0xba, 0x06, 0x00),
        7 => (0x8c, 0x17, 0x00),
        8 => (0x5c, 0x2f, 0x00),
        9 => (0x10, 0x45, 0x00),
        10 => (0x05, 0x4a, 0x00),
        11 => (0x00, 0x47, 0x2e),
        12 => (0x00, 0x41, 0x66),
        13 => (0x00, 0x00, 0x00),
        14 => (0x05, 0x05, 0x05),
        15 => (0x05, 0x05, 0x05),
        16 => (0xc7, 0xc7, 0xc7),
        17 => (0x00, 0x77, 0xff),
        18 => (0x21, 0x55, 0xff),
        19 => (0x82, 0x37, 0xfa),
        20 => (0xeb, 0x2f, 0xb5),
        21 => (0xff, 0x29, 0x50),
        22 => (0xff, 0x22, 0x00),
        23 => (0xd6, 0x32, 0x00),
        24 => (0xc4, 0x62, 0x00),
        25 => (0x35, 0x80, 0x00),
        26 => (0x05, 0x8f, 0x00),
        27 => (0x00, 0x8a, 0x55),
        28 => (0x00, 0x99, 0xcc),
        29 => (0x21, 0x21, 0x21),
        30 => (0x09, 0x09, 0x09),
        31 => (0x09, 0x09, 0x09),
        32 => (0xff, 0xff, 0xff),
        33 => (0x0f, 0xd7, 0xff),
        34 => (0x69, 0xa2, 0xff),
        35 => (0xd4, 0x80, 0xff),
        36 => (0xff, 0x45, 0xf3),
        37 => (0xff, 0x61, 0x8b),
        38 => (0xff, 0x88, 0x33),
        39 => (0xff, 0x9c, 0x12),
        40 => (0xfa, 0xbc, 0x20),
        41 => (0x9f, 0xe3, 0x0e),
        42 => (0x2b, 0xf0, 0x35),
        43 => (0x0c, 0xf0, 0xa4),
        44 => (0x05, 0xfb, 0xff),
        45 => (0x5e, 0x5e, 0x5e),
        46 => (0x0d, 0x0d, 0x0d),
        47 => (0x0d, 0x0d, 0x0d),
        48 => (0xff, 0xff, 0xff),
        49 => (0xa6, 0xfc, 0xff),
        50 => (0xb3, 0xec, 0xff),
        51 => (0xda, 0xab, 0xeb),
        52 => (0xff, 0xa8, 0xf9),
        53 => (0xff, 0xab, 0xb3),
        54 => (0xff, 0xd2, 0xb0),
        55 => (0xff, 0xef, 0xa6),
        56 => (0xff, 0xf7, 0x9c),
        57 => (0xd7, 0xe8, 0x95),
        58 => (0xa6, 0xed, 0xaf),
        59 => (0xa2, 0xf2, 0xda),
        60 => (0x99, 0xff, 0xfc),
        61 => (0xdd, 0xdd, 0xdd),
        62 => (0x11, 0x11, 0x11),
        _ => (0x11, 0x11, 0x11),
    }
}

/// Looks a colour up in the system palette.
pub fn system_palette_color(idx: u8) -> (r: (u8, u8, u8))
    ensures
        r == spec_system_palette(idx),
{
    match idx % 64 {
        0 => (0x80, 0x80, 0x80),
        1 => (0x00, 0x3d, 0xa6),
        2 => (0x00, 0x12, 0xb0),
        3 => (0x44, 0x00, 0x96),
        4 => (0xa1, 0x00, 0x5e),
        5 => (0xc7, 0x00, 0x28),
        6 => (0xba, 0x06, 0x00),
        7 => (0x8c, 0x17, 0x00),
        8 => (0x5c, 0x2f, 0x00),
        9 => (0x10, 0x45, 0x00),
        10 => (0x05, 0x4a, 0x00),
        11 => (0x00, 0x47, 0x2e),
        12 => (0x00, 0x41, 0x66),
        13 => (0x00, 0x00, 0x00),
        14 => (0x05, 0x05, 0x05),
        15 => (0x05, 0x05, 0x05),
        16 => (0xc7, 0xc7, 0xc7),
        17 => (0x00, 0x77, 0xff),
        18 => (0x21, 0x55, 0xff),
        19 => (0x82, 0x37, 0xfa),
        20 => (0xeb, 0x2f, 0xb5),
        21 => (0xff, 0x29, 0x50),
        22 => (0xff, 0x22, 0x00),
        23 => (0xd6, 0x32, 0x00),
        24 => (0xc4, 0x62, 0x00),
        25 => (0x35, 0x80, 0x00),
        26 => (0x05, 0x8f, 0x00),
        27 => (0x00, 0x8a, 0x55),
        28 => (0x00, 0x99, 0xcc),
        29 => (0x21, 0x21, 0x21),
        30 => (0x09, 0x09, 0x09),
        31 => (0x09, 0x09, 0x09),
        32 => (0xff, 0xff, 0xff),
        33 => (0x0f, 0xd7, 0xff),
        34 => (0x69, 0xa2, 0xff),
        35 => (0xd4, 0x80, 0xff),
        36 => (0xff, 0x45, 0xf3),
        37 => (0xff, 0x61, 0x8b),
        38 => (0xff, 0x88, 0x33),
        39 => (0xff, 0x9c, 0x12),
        40 => (0xfa, 0xbc, 0x20),
        41 => (0x9f, 0xe3, 0x0e),
        42 => (0x2b, 0xf0, 0x35),
        43 => (0x0c, 0xf0, 0xa4),
        44 => (0x05, 0xfb, 0xff),
        45 => (0x5e, 0x5e, 0x5e),
        46 => (0x0d, 0x0d, 0x0d),
        47 => (0x0d, 0x0d, 0x0d),
        48 => (0xff, 0xff, 0xff),
        49 => (0xa6, 0xfc, 0xff),
        50 => (0xb3, 0xec, 0xff),
        51 => (0xda, 0xab, 0xeb),
        52 => (0xff, 0xa8, 0xf9),
        53 => (0xff, 0xab, 0xb3),
        54 => (0xff, 0xd2, 0xb0),
        55 => (0xff, 0xef, 0xa6),
        56 => (0xff, 0xf7, 0x9c),
        57 => (0xd7, 0xe8, 0x95),
        58 => (0xa6, 0xed, 0xaf),
        59 => (0xa2, 0xf2, 0xda),
        60 => (0x99, 0xff, 0xfc),
        61 => (0xdd, 0xdd, 0xdd),
        62 => (0x11, 0x11, 0x11),
        _ => (0x11, 0x11, 0x11),
    }
}

/// The four-colour palette of one sprite palette index: entry zero is
/// transparent, the rest come from the sprite half of the palette file.
pub open spec fn spec_sprite_palette(p: PpuV, palidx: u8) -> Seq<u8> {
    seq![
        0u8,
        p.palette[0x11 + palidx * 4],
        p.palette[0x11 + palidx * 4 + 1],
        p.palette[0x11 + palidx * 4 + 2],
    ]
}

/// Looks up the four-colour palette of one sprite palette index.
pub fn sprite_palette(ppu: &PPU, palidx: u8) -> (r: Vec<u8>)
    requires
        ppu@.wf(),
        palidx <= 3,
    ensures
        r@ == spec_sprite_palette(ppu@, palidx),
{
    let i = 0x11 + (palidx as usize) * 4;
    let mut r: Vec<u8> = Vec::new();
    r.push(0);
    r.push(ppu.palette[i]);
    r.push(ppu.palette[i + 1]);
    r.push(ppu.palette[i + 2]);
    proof {
        assert(r@ =~= spec_sprite_palette(ppu@, palidx));
    }
    r
}

/// The four-colour palette of the background tile at `(x, y)`: the attribute
/// table byte supplies a two-bit palette index for the tile's 4x4 quadrant.
pub open spec fn spec_background_palette(p: PpuV, x: int, y: int) -> Seq<u8> {
    let atidx = y / 4 * 8 + x / 4;
    let atbyte = p.vram[0x3c0 + atidx];
    let palidx = if x % 4 / 2 == 0 && y % 4 / 2 == 0 {
        atbyte & 0b11
    } else if x % 4 / 2 == 1 && y % 4 / 2 == 0 {
        (atbyte >> 2) & 0b11
    } else if x % 4 / 2 == 0 && y % 4 / 2 == 1 {
        (atbyte >> 4) & 0b11
    } else {
        (atbyte >> 6) & 0b11
    };
    seq![
        0u8,
        p.palette[1 + palidx * 4],
        p.palette[1 + palidx * 4 + 1],
        p.palette[1 + palidx * 4 + 2],
    ]
}

/// Looks up the four-colour palette of the background tile at `(x, y)` in
/// the first nametable.
pub fn background_palette(ppu: &PPU, x: usize, y: usize) -> (r: Vec<u8>)
    requires
        ppu@.wf(),
        x < 32,
        y < 30,
    ensures
        r@ == spec_background_palette(ppu@, x as int, y as int),
{
    let atidx = y / 4 * 8 + x / 4;
    let atbyte = ppu.vram[0x3c0 + atidx];
    let palidx: u8 = if x % 4 / 2 == 0 && y % 4 / 2 == 0 {
        atbyte & 0b11
    } else if x % 4 / 2 == 1 && y % 4 / 2 == 0 {
        (atbyte >> 2) & 0b11
    } else if x % 4 / 2 == 0 && y % 4 / 2 == 1 {
        (atbyte >> 4) & 0b11
    } else {
        (atbyte >> 6) & 0b11
    };
    proof {
        let b = atbyte;
        assert((b & 0b11) <= 3 && ((b >> 2) & 0b11) <= 3 && ((b >> 4) & 0b11) <= 3 && ((b >> 6)
            & 0b11) <= 3) by (bit_vector);
    }
    let i: usize = 1 + (palidx as usize) * 4;
    let mut r: Vec<u8> = Vec::new();
    r.push(0);
    r.push(ppu.palette[i]);
    r.push(ppu.palette[i + 1]);
    r.push(ppu.palette[i + 2]);
    proof {
        assert(r@ =~= spec_background_palette(ppu@, x as int, y as int));
    }
    r
}

/// The two-bit colour value of column `7 - k` in row `yy` of the 16-byte
/// tile at `base`: one bit from each of the two bit planes.
pub open spec fn spec_tile_pixel(chr: Seq<u8>, base: int, yy: int, k: int) -> u8 {
    let upper = chr[base + yy];
    let lower = chr[base + yy + 8];
    ((1u8 & (lower >> (k as u8))) << 1) | (1u8 & (upper >> (k as u8)))
}

/// The pattern-table base the background uses.
pub open spec fn spec_bg_bank(p: PpuV) -> int {
    if controller_flag_set(p.controller, ControllerFlag::BackgroundAddress) {
        0x1000
    } else {
        0
    }
}

/// The pattern-table base sprites use.
pub open spec fn spec_sprite_bank(p: PpuV) -> int {
    if controller_flag_set(p.controller, ControllerFlag::SpriteAddress) {
        0x1000
    } else {
        0
    }
}

/// The colour painted for background tile `i`, row `yy`, column index `k`:
/// colour zero falls back to the universal backdrop.
pub open spec fn spec_bg_rgb(p: PpuV, i: int, yy: int, k: int) -> (u8, u8, u8) {
    let tile = p.vram[i];
    let base = spec_bg_bank(p) + tile * 16;
    let v = spec_tile_pixel(p.chr, base, yy, k);
    let bp = spec_background_palette(p, i % 32, i / 32);
    let idx = if v == 0 {
        p.palette[0]
    } else if v == 1 {
        bp[1]
    } else if v == 2 {
        bp[2]
    } else {
        bp[3]
    };
    spec_system_palette(idx)
}

/// One background pixel painted onto the frame.
pub open spec fn spec_bg_pix(p: PpuV, f: Seq<u8>, i: int, yy: int, k: int) -> Seq<u8> {
    spec_set_pixel(f, (i % 32) * 8 + (7 - k), (i / 32) * 8 + yy, spec_bg_rgb(p, i, yy, k))
}

/// One background tile row painted, column indices `k` and up.
pub open spec fn spec_bg_row(p: PpuV, f: Seq<u8>, i: int, yy: int, k: int) -> Seq<u8>
    decreases 8 - k,
{
    if k < 0 || k >= 8 {
        f
    } else {
        spec_bg_row(p, spec_bg_pix(p, f, i, yy, k), i, yy, k + 1)
    }
}

/// One background tile painted, rows `yy` and up.
pub open spec fn spec_bg_rows(p: PpuV, f: Seq<u8>, i: int, yy: int) -> Seq<u8>
    decreases 8 - yy,
{
    if yy < 0 || yy >= 8 {
        f
    } else {
        spec_bg_rows(p, spec_bg_row(p, f, i, yy, 0), i, yy + 1)
    }
}

/// The background of the first nametable painted, tiles `i` and up.
pub open spec fn spec_bg_tiles(p: PpuV, f: Seq<u8>, i: int) -> Seq<u8>
    decreases 0x3c0 - i,
{
    if i < 0 || i >= 0x3c0 {
        f
    } else {
        spec_bg_tiles(p, spec_bg_rows(p, f, i, 0), i + 1)
    }
}

/// One sprite pixel painted onto the frame, honouring the sprite's flips;
/// colour zero is transparent and paints nothing.
pub open spec fn spec_sprite_pix(p: PpuV, f: Seq<u8>, s: int, yy: int, k: int) -> Seq<u8> {
    let j = s * 4;
    let tidx = p.oam[j + 1];
    let attr = p.oam[j + 2];
    let xpos = p.oam[j + 3];
    let ypos = p.oam[j];
    let base = spec_sprite_bank(p) + tidx * 16;
    let v = spec_tile_pixel(p.chr, base, yy, k);
    if v == 0 {
        f
    } else {
        let sp = spec_sprite_palette(p, attr & 0b11);
        let idx = if v == 1 {
            sp[1]
        } else if v == 2 {
            sp[2]
        } else {
            sp[3]
        };
        let hflip = (attr >> 6) & 1 == 1;
        let vflip = (attr >> 7) & 1 == 1;
        let x = 7 - k;
        let px = if hflip {
            xpos + 7 - x
        } else {
            xpos + x
        };
        let py = if vflip {
            ypos + 7 - yy
        } else {
            ypos + yy
        };
        spec_set_pixel(f, px, py, spec_system_palette(idx))
    }
}

/// One sprite row painted, column indices `k` and up.
pub open spec fn spec_sprite_row(p: PpuV, f: Seq<u8>, s: int, yy: int, k: int) -> Seq<u8>
    decreases 8 - k,
{
    if k < 0 || k >= 8 {
        f
    } else {
        spec_sprite_row(p, spec_sprite_pix(p, f, s, yy, k), s, yy, k + 1)
    }
}

/// One sprite painted, rows `yy` and up.
pub open spec fn spec_sprite_rows(p: PpuV, f: Seq<u8>, s: int, yy: int) -> Seq<u8>
    decreases 8 - yy,
{
    if yy < 0 || yy >= 8 {
        f
    } else {
        spec_sprite_rows(p, spec_sprite_row(p, f, s, yy, 0), s, yy + 1)
    }
}

/// Sprites `s` down to zero painted, so that sprite zero is painted last
/// and overdraws the rest.
pub open spec fn spec_sprites_down(p: PpuV, f: Seq<u8>, s: int) -> Seq<u8>
    decreases s + 1,
{
    if s < 0 {
        f
    } else {
        spec_sprites_down(p, spec_sprite_rows(p, f, s, 0), s - 1)
    }
}

/// The whole frame: the background of the first nametable, then the sprites.
pub open spec fn spec_render(p: PpuV, f: Seq<u8>) -> Seq<u8> {
    spec_sprites_down(p, spec_bg_tiles(p, f, 0), 63)
}

fn draw_bg_tile_row(ppu: &PPU, frame: &mut Frame, i: usize, yy: usize)
    requires
        ppu@.wf(),
        i < 0x3c0,
        yy < 8,
    ensures
        final(frame).data@ == spec_bg_row(ppu@, old(frame).data@, i as int, yy as int, 0),
{
    let ghost p0 = ppu@;
    let ghost f0 = frame.data@;
    let bank = ppu.controller.background_address() as usize;
    let tile = ppu.vram[i] as usize;
    let base = bank + tile * 16;
    let upper = ppu.chr_rom[base + yy];
    let lower = ppu.chr_rom[base + yy + 8];
    let bp = background_palette(ppu, i % 32, i / 32);
    let mut k: usize = 0;
    while k < 8
        invariant
            0 <= k <= 8,
            ppu@.wf(),
            p0 == ppu@,
            i < 0x3c0,
            yy < 8,
            bank as int == spec_bg_bank(p0),
            tile == p0.vram[i as int],
            base == bank + tile * 16,
            upper == p0.chr[base as int + yy],
            lower == p0.chr[base as int + yy + 8],
            bp@ == spec_background_palette(p0, i as int % 32, i as int / 32),
            bp@.len() == 4,
            spec_bg_row(p0, f0, i as int, yy as int, 0) == spec_bg_row(
                p0,
                frame.data@,
                i as int,
                yy as int,
                k as int,
            ),
        decreases 8 - k,
    {
        let ghost fpre = frame.data@;
        let value = ((1u8 & (lower >> (k as u8))) << 1) | (1u8 & (upper >> (k as u8)));
        let idx = if value == 0 {
            ppu.palette[0]
        } else if value == 1 {
            bp[1]
        } else if value == 2 {
            bp[2]
        } else {
            bp[3]
        };
        let rgb = system_palette_color(idx);
        let x = (i % 32) * 8 + (7 - k);
        let y = (i / 32) * 8 + yy;
        frame.set_pixel(x, y, rgb);
        proof {
            assert(frame.data@ == spec_bg_pix(p0, fpre, i as int, yy as int, k as int));
        }
        k = k + 1;
    }
}

fn draw_bg_tile(ppu: &PPU, frame: &mut Frame, i: usize)
    requires
        ppu@.wf(),
        i < 0x3c0,
    ensures
        final(frame).data@ == spec_bg_rows(ppu@, old(frame).data@, i as int, 0),
{
    let ghost p0 = ppu@;
    let ghost f0 = frame.data@;
    let mut yy: usize = 0;
    while yy < 8
        invariant
            0 <= yy <= 8,
            ppu@.wf(),
            p0 == ppu@,
            i < 0x3c0,
            spec_bg_rows(p0, f0, i as int, 0) == spec_bg_rows(p0, frame.data@, i as int, yy as int),
        decreases 8 - yy,
    {
        draw_bg_tile_row(ppu, frame, i, yy);
        yy = yy + 1;
    }
}

fn draw_sprite_row(ppu: &PPU, frame: &mut Frame, s: usize, yy: usize)
    requires
        ppu@.wf(),
        s < 64,
        yy < 8,
    ensures
        final(frame).data@ == spec_sprite_row(ppu@, old(frame).data@, s as int, yy as int, 0),
{
    let ghost p0 = ppu@;
    let ghost f0 = frame.data@;
    let j = s * 4;
    let tidx = ppu.oam_data[j + 1] as usize;
    let attr = ppu.oam_data[j + 2];
    let xpos = ppu.oam_data[j + 3] as usize;
    let ypos = ppu.oam_data[j] as usize;
    let vertical_rotate = (attr >> 7) & 1 == 1;
    let horizontal_rotate = (attr >> 6) & 1 == 1;
    let palidx = attr & 0b11;
    proof {
        let a = attr;
        assert((a & 0b11) <= 3) by (bit_vector);
    }
    let sp = sprite_palette(ppu, palidx);
    let bank = ppu.controller.sprite_address() as usize;
    let base = bank + tidx * 16;
    let upper = ppu.chr_rom[base + yy];
    let lower = ppu.chr_rom[base + yy + 8];
    let mut k: usize = 0;
    while k < 8
        invariant
            0 <= k <= 8,
            ppu@.wf(),
            p0 == ppu@,
            s < 64,
            yy < 8,
            j == s * 4,
            tidx == p0.oam[j + 1],
            attr == p0.oam[j + 2],
            xpos == p0.oam[j + 3],
            ypos == p0.oam[j as int],
            vertical_rotate == ((attr >> 7) & 1 == 1),
            horizontal_rotate == ((attr >> 6) & 1 == 1),
            palidx == attr & 0b11,
            sp@ == spec_sprite_palette(p0, palidx),
            sp@.len() == 4,
            bank as int == spec_sprite_bank(p0),
            base == bank + tidx * 16,
            upper == p0.chr[base as int + yy],
            lower == p0.chr[base as int + yy + 8],
            spec_sprite_row(p0, f0, s as int, yy as int, 0) == spec_sprite_row(
                p0,
                frame.data@,
                s as int,
                yy as int,
                k as int,
            ),
        decreases 8 - k,
    {
        let ghost fpre = frame.data@;
        let value = ((1u8 & (lower >> (k as u8))) << 1) | (1u8 & (upper >> (k as u8)));
        if value != 0 {
            let idx = if value == 1 {
                sp[1]
            } else if value == 2 {
                sp[2]
            } else {
                sp[3]
            };
            let rgb = system_palette_color(idx);
            let x = 7 - k;
            let px = if horizontal_rotate {
                xpos + 7 - x
            } else {
                xpos + x
            };
            let py = if vertical_rotate {
                ypos + 7 - yy
            } else {
                ypos + yy
            };
            frame.set_pixel(px, py, rgb);
        }
        proof {
            assert(frame.data@ == spec_sprite_pix(p0, fpre, s as int, yy as int, k as int));
        }
        k = k + 1;
    }
}

fn draw_sprite(ppu: &PPU, frame: &mut Frame, s: usize)
    requires
        ppu@.wf(),
        s < 64,
    ensures
        final(frame).data@ == spec_sprite_rows(ppu@, old(frame).data@, s as int, 0),
{
    let ghost p0 = ppu@;
    let ghost f0 = frame.data@;
    let mut yy: usize = 0;
    while yy < 8
        invariant
            0 <= yy <= 8,
            ppu@.wf(),
            p0 == ppu@,
            s < 64,
            spec_sprite_rows(p0, f0, s as int, 0) == spec_sprite_rows(
                p0,
                frame.data@,
                s as int,
                yy as int,
            ),
        decreases 8 - yy,
    {
        draw_sprite_row(ppu, frame, s, yy);
        yy = yy + 1;
    }
}

/// Renders one whole frame from the PPU snapshot.
pub fn render(ppu: &PPU, frame: &mut Frame)
    requires
        ppu@.wf(),
    ensures
        final(frame).data@ == spec_render(ppu@, old(frame).data@),
{
    let ghost p0 = ppu@;
    let ghost f0 = frame.data@;
    let mut i: usize = 0;
    while i < 0x3c0
        invariant
            0 <= i <= 0x3c0,
            ppu@.wf(),
            p0 == ppu@,
            spec_bg_tiles(p0, f0, 0) == spec_bg_tiles(p0, frame.data@, i as int),
        decreases 0x3c0 - i,
    {
        draw_bg_tile(ppu, frame, i);
        i = i + 1;
    }
    let ghost f1 = frame.data@;
    let mut si: usize = 64;
    while si > 0
        invariant
            0 <= si <= 64,
            ppu@.wf(),
            p0 == ppu@,
            f1 == spec_bg_tiles(p0, f0, 0),
            spec_sprites_down(p0, f1, 63) == spec_sprites_down(p0, frame.data@, si as int - 1),
        decreases si,
    {
        si = si - 1;
        draw_sprite(ppu, frame, si);
    }
}

} // verus!
