use vstd::prelude::*;
use super::{Ppu, PpuView, fb_len};

use crate::bits::{lemma_pair, lemma_two_bits, lemma_u16, lemma_u8};
verus! {

/// An RGB colour, 8 bits per channel.
pub type Rgb = (u8, u8, u8);

/// DMG 4-shade palette (greenish), lightest first.
pub open spec fn dmg_color_spec(shade: u8) -> Rgb {
    if shade == 0 {
        (0xE0, 0xF0, 0xE0)
    } else if shade == 1 {
        (0x88, 0xB0, 0x88)
    } else if shade == 2 {
        (0x30, 0x60, 0x30)
    } else {
        (0x08, 0x18, 0x08)
    }
}

pub fn dmg_color(shade: u8) -> (r: Rgb)
    ensures
        r == dmg_color_spec(shade),
{
    match shade {
        0 => (0xE0, 0xF0, 0xE0),  // 0 — lightest
        1 => (0x88, 0xB0, 0x88),  // 1
        2 => (0x30, 0x60, 0x30),  // 2
        _ => (0x08, 0x18, 0x08),  // 3 — darkest
    }
}

/// 2-bit colour number of a tile pixel: bit `bit` of the high plane, then of the low plane.
pub open spec fn color_id(lo: u8, hi: u8, bit: u8) -> u8 {
    (((hi >> bit) & 1) * 2 + ((lo >> bit) & 1)) as u8
}

/// Shade that a DMG palette register gives colour number `id`.
pub open spec fn shade(palette: u8, id: u8) -> u8 {
    (palette >> (id * 2) as u8) & 3
}

fn color_id_exec(lo: u8, hi: u8, bit: u8) -> (r: u8)
    requires
        bit < 8,
    ensures
        r == color_id(lo, hi, bit),
        r < 4,
{
    proof {
        lemma_u8(hi >> bit);
        lemma_u8(lo >> bit);
        lemma_two_bits((hi >> bit) & 1, (lo >> bit) & 1);
    }
    ((hi >> bit) & 1) << 1 | ((lo >> bit) & 1)
}

fn shade_exec(palette: u8, id: u8) -> (r: u8)
    requires
        id < 4,
    ensures
        r == shade(palette, id),
        r < 4,
{
    proof {
        lemma_u8(palette >> (id * 2) as u8);
    }
    (palette >> (id * 2)) & 0x03
}

/// Address in GB memory of a tile's first byte, from its ID.
pub open spec fn tile_addr_spec(data_base: u16, tile_id: u8, signed: bool) -> int {
    if signed {
        data_base + (if tile_id < 128 { tile_id as int } else { tile_id - 256 }) * 16
    } else {
        data_base + tile_id * 16
    }
}

/// Compute a tile's base address in GB memory space from its ID.
fn tile_addr(data_base: u16, tile_id: u8, signed: bool) -> (r: u16)
    requires
        data_base == 0x8000 || data_base == 0x9000,
        signed == (data_base == 0x9000),
    ensures
        r == tile_addr_spec(data_base, tile_id, signed),
        0x8000 <= r <= 0x97F0,
{
    if signed {
        if tile_id < 128 {
            data_base + tile_id as u16 * 16
        } else {
            data_base - (256 - tile_id as u16) * 16
        }
    } else {
        data_base + tile_id as u16 * 16
    }
}

/// 5-bit colour channel widened to 8 bits.
pub open spec fn scale5(c: int) -> u8 {
    (c * 8 + c / 4) as u8
}

/// Colour `cid` of palette `num` in a GBC palette RAM (little-endian RGB555).
pub open spec fn cgb_color_spec(pal: Seq<u8>, num: int, cid: u8) -> Rgb {
    let idx = num * 8 + cid * 2;
    let val = pal[idx + 1] * 256 + pal[idx];
    (scale5(val % 32), scale5(val / 32 % 32), scale5(val / 1024 % 32))
}

/// Decode a GBC 15-bit palette entry to 8-bit RGB.
/// `palette_data` is the 64-byte BCPD or OCPD array.
fn cgb_color(palette_data: &Vec<u8>, palette_num: usize, color_id: u8) -> (r: Rgb)
    requires
        palette_data.len() == 64,
        palette_num < 8,
        color_id < 4,
    ensures
        r == cgb_color_spec(palette_data@, palette_num as int, color_id),
{
    let idx = palette_num * 8 + color_id as usize * 2;
    let lo = palette_data[idx];
    let hi = palette_data[idx + 1];
    let val = (hi as u16) << 8 | lo as u16;
    let r = (val & 0x1F) as u8;
    let g = ((val >> 5) & 0x1F) as u8;
    let b = ((val >> 10) & 0x1F) as u8;
    proof {
        lemma_pair(hi as u16, lo as u16);
        lemma_u16(val);
        lemma_u8(r);
        lemma_u8(g);
        lemma_u8(b);
    }
    // Scale 5-bit → 8-bit: multiply by 255/31 ≈ shift-left 3 + shift-right 2
    ((r << 3) | (r >> 2), (g << 3) | (g >> 2), (b << 3) | (b >> 2))
}

// ---------------------------------------------------------------------------
// What a scanline shows, pixel by pixel
// ---------------------------------------------------------------------------

/// Tile map at 0x9C00 when LCDC bit `bit` is set, else 0x9800.
pub open spec fn map_base(v: PpuView, bit: u8) -> u16 {
    if v.lcdc & bit != 0 { 0x9C00 } else { 0x9800 }
}

pub open spec fn data_base(v: PpuView) -> u16 {
    if v.lcdc & 0x10 != 0 { 0x8000 } else { 0x9000 }
}

pub open spec fn signed_ids(v: PpuView) -> bool {
    v.lcdc & 0x10 == 0
}

/// Colour, "colour number is nonzero" and (GBC) "tile has BG priority" of the
/// pixel (`tile_x`, `tile_y`) of map entry (`tile_col`, `tile_row`).
pub open spec fn tile_pixel(v: PpuView, map: u16, tile_row: int, tile_col: int, tile_y: int, tile_x: int) -> (
    Rgb,
    bool,
    bool,
) {
    let map_idx = map - 0x8000 + tile_row * 32 + tile_col;
    let tile_id = v.vram[map_idx];
    if v.cgb_mode {
        let attrs = v.vram[0x2000 + map_idx];
        let bank: int = if attrs & 0x08 != 0 { 1 } else { 0 };
        let ty = if attrs & 0x40 != 0 { 7 - tile_y } else { tile_y };
        let row = tile_addr_spec(data_base(v), tile_id, signed_ids(v)) - 0x8000 + ty * 2;
        let lo = v.vram[bank * 0x2000 + row];
        let hi = v.vram[bank * 0x2000 + row + 1];
        let bit = (if attrs & 0x20 != 0 { tile_x } else { 7 - tile_x }) as u8;
        let cid = color_id(lo, hi, bit);
        (cgb_color_spec(v.bcpd, (attrs & 0x07) as int, cid), cid != 0, attrs & 0x80 != 0)
    } else {
        let row = tile_addr_spec(data_base(v), tile_id, signed_ids(v)) - 0x8000 + tile_y * 2;
        let lo = v.vram[row];
        let hi = v.vram[row + 1];
        let cid = color_id(lo, hi, (7 - tile_x) as u8);
        (dmg_color_spec(shade(v.bgp, cid)), cid != 0, false)
    }
}

/// Background pixel `px` of scanline `line`, scrolled by SCX/SCY.
pub open spec fn bg_pixel(v: PpuView, line: int, px: int) -> (Rgb, bool, bool) {
    let y = (line + v.scy) % 256;
    let x = (px + v.scx) % 256;
    tile_pixel(v, map_base(v, 0x08), y / 8, x / 8, y % 8, x % 8)
}

/// Left edge of the window on screen.
pub open spec fn window_x(v: PpuView) -> int {
    if v.wx >= 7 { v.wx - 7 } else { 0 }
}

/// Window pixel `px` (at or right of `window_x`) of scanline `line` (at or below WY).
pub open spec fn window_pixel(v: PpuView, line: int, px: int) -> (Rgb, bool, bool) {
    let y = line - v.wy;
    let x = px - window_x(v);
    tile_pixel(v, map_base(v, 0x40), y / 8, x / 8, y % 8, x % 8)
}

/// Whether the window covers the given scanline.
pub open spec fn window_on_line(v: PpuView, line: int) -> bool {
    v.lcdc & 0x20 != 0 && line >= v.wy
}

/// Whether the background layer is drawn (always on GBC).
pub open spec fn bg_enabled(v: PpuView) -> bool {
    v.lcdc & 0x01 != 0 || v.cgb_mode
}

/// Background-and-window pixel before sprites (black when neither draws it).
pub open spec fn base_pixel(v: PpuView, line: int, px: int) -> (Rgb, bool, bool) {
    if window_on_line(v, line) && px >= window_x(v) {
        window_pixel(v, line, px)
    } else if bg_enabled(v) {
        bg_pixel(v, line, px)
    } else {
        ((0u8, 0u8, 0u8), false, false)
    }
}

pub open spec fn sprite_height_spec(v: PpuView) -> int {
    if v.lcdc & 0x04 != 0 { 16 } else { 8 }
}

/// Whether OAM entry `i` covers scanline `line`.
pub open spec fn sprite_on_line(oam: Seq<u8>, line: int, h: int, i: int) -> bool {
    let sy = oam[4 * i] - 16;
    sy <= line < sy + h
}

/// The OAM indices from `i` on that cover `line`, appended to `acc`, stopping
/// once ten are collected.
pub open spec fn scan_sprites(oam: Seq<u8>, line: int, h: int, i: int, acc: Seq<int>) -> Seq<int>
    decreases 40 - i,
{
    if i >= 40 || acc.len() >= 10 {
        acc
    } else if sprite_on_line(oam, line, h, i) {
        scan_sprites(oam, line, h, i + 1, acc.push(i))
    } else {
        scan_sprites(oam, line, h, i + 1, acc)
    }
}

/// Sprites drawn on `line`, in drawing order: the first ten in OAM order that
/// cover the line, highest index first so that the lowest index lands on top.
pub open spec fn visible_sprites(oam: Seq<u8>, line: int, h: int) -> Seq<int> {
    scan_sprites(oam, line, h, 0, Seq::empty()).reverse()
}

/// Pixel `px` after drawing sprite `i` over colour `cur`, given whether the
/// BG pixel there has a nonzero colour number (`nz`) and, on GBC, BG priority (`prio`).
pub open spec fn sprite_pixel(
    v: PpuView,
    oam: Seq<u8>,
    line: int,
    i: int,
    px: int,
    cur: Rgb,
    nz: bool,
    prio: bool,
) -> Rgb {
    let h = sprite_height_spec(v);
    let sy = oam[4 * i] - 16;
    let sx = oam[4 * i + 1] - 8;
    let flags = oam[4 * i + 3];
    let tile = oam[4 * i + 2] & (if h == 16 { 0xFEu8 } else { 0xFFu8 });
    let raw = line - sy;
    let ty = if flags & 0x40 != 0 { h - 1 - raw } else { raw };
    let bank: int = if v.cgb_mode && flags & 0x08 != 0 { 1 } else { 0 };
    let row = bank * 0x2000 + tile * 16 + ty * 2;
    let lo = v.vram[row];
    let hi = v.vram[row + 1];
    let tx = px - sx;
    let bit = (if flags & 0x20 != 0 { tx } else { 7 - tx }) as u8;
    let cid = color_id(lo, hi, bit);
    let bg_over = flags & 0x80 != 0;
    let hidden = if v.cgb_mode {
        v.lcdc & 0x01 != 0 && (bg_over || prio) && nz
    } else {
        bg_over && nz
    };
    if 0 <= tx < 8 && !hidden && cid != 0 {
        if v.cgb_mode {
            cgb_color_spec(v.ocpd, (flags & 0x07) as int, cid)
        } else {
            dmg_color_spec(shade(if flags & 0x10 != 0 { v.obp1 } else { v.obp0 }, cid))
        }
    } else {
        cur
    }
}

/// The line after drawing sprite `i` over `rgb`.
pub open spec fn apply_sprite(
    v: PpuView,
    oam: Seq<u8>,
    line: int,
    i: int,
    rgb: Seq<Rgb>,
    nz: Seq<bool>,
    prio: Seq<bool>,
) -> Seq<Rgb> {
    Seq::new(160, |px: int| sprite_pixel(v, oam, line, i, px, rgb[px], nz[px], prio[px]))
}

/// The line after drawing the first `n` sprites of `list` in order.
pub open spec fn apply_sprites(
    v: PpuView,
    oam: Seq<u8>,
    line: int,
    list: Seq<int>,
    n: int,
    rgb: Seq<Rgb>,
    nz: Seq<bool>,
    prio: Seq<bool>,
) -> Seq<Rgb>
    decreases n,
{
    if n <= 0 {
        rgb
    } else {
        apply_sprite(v, oam, line, list[n - 1], apply_sprites(v, oam, line, list, n - 1, rgb, nz, prio), nz, prio)
    }
}

/// The 160 colours of scanline `line`.
pub open spec fn line_colors(v: PpuView, oam: Seq<u8>, line: int) -> Seq<Rgb> {
    let base = Seq::new(160, |px: int| base_pixel(v, line, px).0);
    let nz = Seq::new(160, |px: int| base_pixel(v, line, px).1);
    let prio = Seq::new(160, |px: int| base_pixel(v, line, px).2);
    if v.lcdc & 0x02 != 0 {
        let list = visible_sprites(oam, line, sprite_height_spec(v));
        apply_sprites(v, oam, line, list, list.len() as int, base, nz, prio)
    } else {
        base
    }
}

/// Channel `k` (0 = red, 1 = green, 2 = blue) of a colour.
pub open spec fn channel(c: Rgb, k: int) -> u8 {
    if k == 0 {
        c.0
    } else if k == 1 {
        c.1
    } else {
        c.2
    }
}

/// `fb` with row `line` replaced by the colours `rgb`.
pub open spec fn fb_with_line(fb: Seq<u8>, line: int, rgb: Seq<Rgb>) -> Seq<u8> {
    Seq::new(
        fb.len(),
        |i: int|
            if line * 480 <= i < line * 480 + 480 {
                channel(rgb[(i - line * 480) / 3], (i - line * 480) % 3)
            } else {
                fb[i]
            },
    )
}

/// The framebuffer after rendering scanline LY (unchanged outside the visible lines).
pub open spec fn render_line_spec(v: PpuView, oam: Seq<u8>) -> Seq<u8> {
    if v.ly >= 144 {
        v.framebuffer
    } else {
        fb_with_line(v.framebuffer, v.ly as int, line_colors(v, oam, v.ly as int))
    }
}

fn black_line() -> (r: Vec<Rgb>)
    ensures
        r@ == Seq::new(160, |i: int| (0u8, 0u8, 0u8)),
{
    let mut v: Vec<Rgb> = Vec::with_capacity(160);
    let mut i: usize = 0;
    while i < 160
        invariant
            i <= 160,
            v@ == Seq::new(i as nat, |j: int| (0u8, 0u8, 0u8)),
        decreases 160 - i,
    {
        v.push((0, 0, 0));
        i = i + 1;
        assert(v@ =~= Seq::new(i as nat, |j: int| (0u8, 0u8, 0u8)));
    }
    v
}

fn false_line() -> (r: Vec<bool>)
    ensures
        r@ == Seq::new(160, |i: int| false),
{
    let mut v: Vec<bool> = Vec::with_capacity(160);
    let mut i: usize = 0;
    while i < 160
        invariant
            i <= 160,
            v@ == Seq::new(i as nat, |j: int| false),
        decreases 160 - i,
    {
        v.push(false);
        i = i + 1;
        assert(v@ =~= Seq::new(i as nat, |j: int| false));
    }
    v
}

impl Ppu {
    /// Pixel (`tile_x`, `tile_y`) of the tile at map entry (`tile_col`, `tile_row`).
    fn tile_pixel(&self, map: u16, tile_row: usize, tile_col: usize, tile_y: usize, tile_x: usize) -> (r: (
        Rgb,
        bool,
        bool,
    ))
        requires
            self@.wf(),
            map == 0x9800 || map == 0x9C00,
            tile_row < 32,
            tile_col < 32,
            tile_y < 8,
            tile_x < 8,
        ensures
            r == tile_pixel(self@, map, tile_row as int, tile_col as int, tile_y as int, tile_x as int),
    {
        let tile_data_base: u16 = if self.lcdc & 0x10 != 0 { 0x8000 } else { 0x9000 };
        let signed = self.lcdc & 0x10 == 0;
        let map_idx = (map - 0x8000) as usize + tile_row * 32 + tile_col;
        let tile_id = self.vram[map_idx];
        if self.cgb_mode {
            let attrs = self.vram[0x2000 + map_idx];
            let vram_bank: usize = if attrs & 0x08 != 0 { 1 } else { 0 };
            let palette_num = (attrs & 0x07) as usize;
            let ty = if attrs & 0x40 != 0 { 7 - tile_y } else { tile_y };
            let row_addr = (tile_addr(tile_data_base, tile_id, signed) - 0x8000) as usize + ty * 2;
            let lo = self.vram[vram_bank * 0x2000 + row_addr];
            let hi = self.vram[vram_bank * 0x2000 + row_addr + 1];
            let bit = if attrs & 0x20 != 0 { tile_x } else { 7 - tile_x };  // x-flip
            let color_id = color_id_exec(lo, hi, bit as u8);
            proof {
                lemma_u8(attrs);
            }
            (cgb_color(&self.bcpd, palette_num, color_id), color_id != 0, attrs & 0x80 != 0)
        } else {
            let row_addr = (tile_addr(tile_data_base, tile_id, signed) - 0x8000) as usize + tile_y * 2;
            let lo = self.vram[row_addr];
            let hi = self.vram[row_addr + 1];
            let color_id = color_id_exec(lo, hi, (7 - tile_x) as u8);
            let palette_color = shade_exec(self.bgp, color_id);
            (dmg_color(palette_color), color_id != 0, false)
        }
    }

    // -----------------------------------------------------------------------
    // Background rendering
    // -----------------------------------------------------------------------
    fn draw_bg(
        &self,
        line: usize,
        line_rgb: &mut Vec<Rgb>,
        bg_color_nonzero: &mut Vec<bool>,
        bg_tile_priority: &mut Vec<bool>,
    )
        requires
            self@.wf(),
            line < 144,
            old(line_rgb).len() == 160,
            old(bg_color_nonzero).len() == 160,
            old(bg_tile_priority).len() == 160,
        ensures
            final(line_rgb)@ == Seq::new(160, |px: int| bg_pixel(self@, line as int, px).0),
            final(bg_color_nonzero)@ == Seq::new(160, |px: int| bg_pixel(self@, line as int, px).1),
            final(bg_tile_priority)@ == Seq::new(160, |px: int| bg_pixel(self@, line as int, px).2),
    {
        let tile_map_base: u16 = if self.lcdc & 0x08 != 0 { 0x9C00 } else { 0x9800 };
        let y = (line + self.scy as usize) % 256;
        let tile_row = y / 8;
        let tile_y = y % 8;
        let mut px: usize = 0;
        while px < 160
            invariant
                self@.wf(),
                line < 144,
                px <= 160,
                tile_map_base == map_base(self@, 0x08),
                y == (line + self.scy) % 256,
                tile_row == y / 8,
                tile_y == y % 8,
                line_rgb.len() == 160,
                bg_color_nonzero.len() == 160,
                bg_tile_priority.len() == 160,
                forall|j: int| 0 <= j < px ==> line_rgb@[j] == bg_pixel(self@, line as int, j).0,
                forall|j: int| 0 <= j < px ==> bg_color_nonzero@[j] == bg_pixel(self@, line as int, j).1,
                forall|j: int| 0 <= j < px ==> bg_tile_priority@[j] == bg_pixel(self@, line as int, j).2,
            decreases 160 - px,
        {
            let x = (px + self.scx as usize) % 256;
            let p = self.tile_pixel(tile_map_base, tile_row, x / 8, tile_y, x % 8);
            line_rgb.set(px, p.0);
            bg_color_nonzero.set(px, p.1);
            bg_tile_priority.set(px, p.2);
            px = px + 1;
        }
        assert(line_rgb@ =~= Seq::new(160, |px: int| bg_pixel(self@, line as int, px).0));
        assert(bg_color_nonzero@ =~= Seq::new(160, |px: int| bg_pixel(self@, line as int, px).1));
        assert(bg_tile_priority@ =~= Seq::new(160, |px: int| bg_pixel(self@, line as int, px).2));
    }

    // -----------------------------------------------------------------------
    // Window rendering
    // -----------------------------------------------------------------------
    fn draw_window(
        &self,
        line: usize,
        line_rgb: &mut Vec<Rgb>,
        bg_color_nonzero: &mut Vec<bool>,
        bg_tile_priority: &mut Vec<bool>,
    )
        requires
            self@.wf(),
            line < 144,
            line >= self.wy,
            old(line_rgb).len() == 160,
            old(bg_color_nonzero).len() == 160,
            old(bg_tile_priority).len() == 160,
        ensures
            final(line_rgb)@ == Seq::new(
                160,
                |px: int|
                    if px >= window_x(self@) {
                        window_pixel(self@, line as int, px).0
                    } else {
                        old(line_rgb)@[px]
                    },
            ),
            final(bg_color_nonzero)@ == Seq::new(
                160,
                |px: int|
                    if px >= window_x(self@) {
                        window_pixel(self@, line as int, px).1
                    } else {
                        old(bg_color_nonzero)@[px]
                    },
            ),
            final(bg_tile_priority)@ == Seq::new(
                160,
                |px: int|
                    if px >= window_x(self@) {
                        window_pixel(self@, line as int, px).2
                    } else {
                        old(bg_tile_priority)@[px]
                    },
            ),
    {
        let wx = self.wx.saturating_sub(7) as usize;
        let tile_map_base: u16 = if self.lcdc & 0x40 != 0 { 0x9C00 } else { 0x9800 };
        let y = line - self.wy as usize;
        let tile_row = y / 8;
        let tile_y = y % 8;
        let mut px: usize = wx;
        while px < 160
            invariant
                self@.wf(),
                line < 144,
                wx == window_x(self@),
                wx <= px || px >= 160,
                tile_map_base == map_base(self@, 0x40),
                y == line - self.wy,
                tile_row == y / 8,
                tile_y == y % 8,
                line_rgb.len() == 160,
                bg_color_nonzero.len() == 160,
                bg_tile_priority.len() == 160,
                forall|j: int|
                    0 <= j < 160 ==> #[trigger] line_rgb@[j] == if wx <= j < px {
                        window_pixel(self@, line as int, j).0
                    } else {
                        old(line_rgb)@[j]
                    },
                forall|j: int|
                    0 <= j < 160 ==> #[trigger] bg_color_nonzero@[j] == if wx <= j < px {
                        window_pixel(self@, line as int, j).1
                    } else {
                        old(bg_color_nonzero)@[j]
                    },
                forall|j: int|
                    0 <= j < 160 ==> #[trigger] bg_tile_priority@[j] == if wx <= j < px {
                        window_pixel(self@, line as int, j).2
                    } else {
                        old(bg_tile_priority)@[j]
                    },
            decreases 160 - px,
        {
            let x = px - wx;
            let p = self.tile_pixel(tile_map_base, tile_row, x / 8, tile_y, x % 8);
            line_rgb.set(px, p.0);
            bg_color_nonzero.set(px, p.1);
            bg_tile_priority.set(px, p.2);
            px = px + 1;
        }
        assert(line_rgb@ =~= Seq::new(
            160,
            |px: int|
                if px >= window_x(self@) {
                    window_pixel(self@, line as int, px).0
                } else {
                    old(line_rgb)@[px]
                },
        ));
        assert(bg_color_nonzero@ =~= Seq::new(
            160,
            |px: int|
                if px >= window_x(self@) {
                    window_pixel(self@, line as int, px).1
                } else {
                    old(bg_color_nonzero)@[px]
                },
        ));
        assert(bg_tile_priority@ =~= Seq::new(
            160,
            |px: int|
                if px >= window_x(self@) {
                    window_pixel(self@, line as int, px).2
                } else {
                    old(bg_tile_priority)@[px]
                },
        ));
    }

    // -----------------------------------------------------------------------
    // Sprite rendering
    // -----------------------------------------------------------------------
    /// The sprites on `line` in drawing order, each with its screen X.
    fn collect_sprites(&self, line: usize, oam: &[u8], sprite_height: i32) -> (r: Vec<(i32, usize)>)
        requires
            oam.len() == 0xA0,
            line < 144,
            sprite_height == 8 || sprite_height == 16,
        ensures
            r@.len() == visible_sprites(oam@, line as int, sprite_height as int).len(),
            r@.len() <= 10,
            forall|k: int|
                0 <= k < r@.len() ==> {
                    &&& #[trigger] r@[k].1 == visible_sprites(oam@, line as int, sprite_height as int)[k]
                    &&& r@[k].1 < 40
                    &&& r@[k].0 == oam@[4 * r@[k].1 + 1] - 8
                },
    {
        let mut visible: Vec<(i32, usize)> = Vec::new();
        assert(visible@.map_values(|p: (i32, usize)| p.1 as int) =~= Seq::<int>::empty());
        let mut i: usize = 0;
        while i < 40 && visible.len() < 10
            invariant
                i <= 40,
                line < 144,
                sprite_height == 8 || sprite_height == 16,
                oam.len() == 0xA0,
                visible.len() <= 10,
                scan_sprites(oam@, line as int, sprite_height as int, i as int, visible@.map_values(|p: (i32, usize)| p.1 as int))
                    == scan_sprites(oam@, line as int, sprite_height as int, 0, Seq::empty()),
                forall|k: int|
                    0 <= k < visible@.len() ==> #[trigger] visible@[k].1 < 40 && visible@[k].0 == oam@[4
                        * visible@[k].1 + 1] - 8,
            decreases 40 - i,
        {
            let base = i * 4;
            let sy = oam[base] as i32 - 16;
            let sx = oam[base + 1] as i32 - 8;
            let ghost before = visible@;
            let ghost acc0 = before.map_values(|p: (i32, usize)| p.1 as int);
            assert(scan_sprites(oam@, line as int, sprite_height as int, i as int, acc0) == if sprite_on_line(oam@, line as int, sprite_height as int, i as int) {
                scan_sprites(oam@, line as int, sprite_height as int, i + 1, acc0.push(i as int))
            } else {
                scan_sprites(oam@, line as int, sprite_height as int, i + 1, acc0)
            });
            let li = line as i32;
            if li >= sy && li < sy + sprite_height {
                visible.push((sx, i));
                assert(visible@.map_values(|p: (i32, usize)| p.1 as int) =~= acc0.push(i as int));
            }
            i = i + 1;
        }
        let ghost acc = visible@.map_values(|p: (i32, usize)| p.1 as int);
        assert(scan_sprites(oam@, line as int, sprite_height as int, i as int, acc) == acc);
        // Lower OAM index has priority — draw highest index first so lowest lands on top.
        let mut rev: Vec<(i32, usize)> = Vec::new();
        let mut k: usize = visible.len();
        while k > 0
            invariant
                k <= visible.len(),
                visible.len() <= 10,
                rev.len() == visible.len() - k,
                forall|j: int| 0 <= j < rev@.len() ==> #[trigger] rev@[j] == visible@[visible.len() - 1 - j],
            decreases k,
        {
            rev.push(visible[k - 1]);
            k = k - 1;
        }
        proof {
            assert forall|j: int| 0 <= j < rev@.len() implies #[trigger] rev@[j].1 == visible_sprites(
                oam@,
                line as int,
                sprite_height as int,
            )[j] by {
                assert(acc[visible.len() - 1 - j] == visible@[visible.len() - 1 - j].1 as int);
            }
        }
        rev
    }

    /// Draw one sprite (OAM entry `i` at screen X `sx`) over the line.
    fn draw_sprite(
        &self,
        line: usize,
        oam: &[u8],
        sx: i32,
        i: usize,
        line_rgb: &mut Vec<Rgb>,
        bg_color_nonzero: &Vec<bool>,
        bg_tile_priority: &Vec<bool>,
    )
        requires
            self@.wf(),
            oam.len() == 0xA0,
            line < 144,
            i < 40,
            sx == oam@[4 * i + 1] - 8,
            sprite_on_line(oam@, line as int, sprite_height_spec(self@), i as int),
            old(line_rgb).len() == 160,
            bg_color_nonzero.len() == 160,
            bg_tile_priority.len() == 160,
        ensures
            final(line_rgb)@ == apply_sprite(
                self@,
                oam@,
                line as int,
                i as int,
                old(line_rgb)@,
                bg_color_nonzero@,
                bg_tile_priority@,
            ),
    {
        let sprite_height: i32 = if self.lcdc & 0x04 != 0 { 16 } else { 8 };
        let base = i * 4;
        let sy = oam[base] as i32 - 16;
        let flags = oam[base + 3];
        let tile_id = oam[base + 2] & if sprite_height == 16 { 0xFE } else { 0xFF };
        let flip_x = flags & 0x20 != 0;
        let flip_y = flags & 0x40 != 0;
        let bg_over = flags & 0x80 != 0;
        let vram_bank: usize = if self.cgb_mode && flags & 0x08 != 0 { 1 } else { 0 };
        let palette = if flags & 0x10 != 0 { self.obp1 } else { self.obp0 };
        let palette_num = (flags & 0x07) as usize;
        proof {
            lemma_u8(flags);
        }
        let tile_y = {
            let raw = (line as i32 - sy) as usize;
            if flip_y { sprite_height as usize - 1 - raw } else { raw }
        };
        let row_addr = vram_bank * 0x2000 + tile_id as usize * 16 + tile_y * 2;
        let lo = self.vram[row_addr];
        let hi = self.vram[row_addr + 1];
        let ghost prev = line_rgb@;
        let mut tile_x: usize = 0;
        while tile_x < 8
            invariant
                self@.wf(),
                oam.len() == 0xA0,
                line < 144,
                i < 40,
                tile_x <= 8,
                sx == oam@[4 * i + 1] - 8,
                sprite_on_line(oam@, line as int, sprite_height_spec(self@), i as int),
                sprite_height == sprite_height_spec(self@),
                sy == oam@[4 * i] - 16,
                flags == oam@[4 * i + 3],
                tile_id == oam@[4 * i + 2] & (if sprite_height == 16 { 0xFEu8 } else { 0xFFu8 }),
                flip_x == (flags & 0x20 != 0),
                bg_over == (flags & 0x80 != 0),
                vram_bank == (if self.cgb_mode && flags & 0x08 != 0 { 1int } else { 0 }),
                palette == (if flags & 0x10 != 0 { self.obp1 } else { self.obp0 }),
                palette_num == flags & 0x07,
                palette_num < 8,
                row_addr == vram_bank * 0x2000 + tile_id * 16 + (if flags & 0x40 != 0 { sprite_height - 1 - (line - sy) } else { line - sy }) * 2,
                lo == self@.vram[row_addr as int],
                hi == self@.vram[row_addr + 1],
                line_rgb.len() == 160,
                bg_color_nonzero.len() == 160,
                bg_tile_priority.len() == 160,
                prev.len() == 160,
                forall|j: int|
                    0 <= j < 160 ==> #[trigger] line_rgb@[j] == if sx <= j < sx + tile_x {
                        sprite_pixel(self@, oam@, line as int, i as int, j, prev[j], bg_color_nonzero@[j], bg_tile_priority@[j])
                    } else {
                        prev[j]
                    },
            decreases 8 - tile_x,
        {
            let px = sx + tile_x as i32;
            if px >= 0 && px < 160 {
                let px = px as usize;
                // DMG: OAM bit 7 puts the sprite behind nonzero BG colours.
                // GBC: LCDC bit 0 = 0 makes sprites always win; otherwise OAM bit 7
                // or tile attr bit 7 makes the BG win when its pixel is nonzero.
                let hidden = if self.cgb_mode {
                    self.lcdc & 0x01 != 0 && (bg_over || bg_tile_priority[px]) && bg_color_nonzero[px]
                } else {
                    bg_over && bg_color_nonzero[px]
                };
                if !hidden {
                    let bit = if flip_x { tile_x } else { 7 - tile_x };
                    let color_id = color_id_exec(lo, hi, bit as u8);
                    if color_id != 0 {
                        let c = if self.cgb_mode {
                            cgb_color(&self.ocpd, palette_num, color_id)
                        } else {
                            dmg_color(shade_exec(palette, color_id))
                        };
                        line_rgb.set(px, c);
                    }
                }
            }
            tile_x = tile_x + 1;
        }
        assert(line_rgb@ =~= apply_sprite(
            self@,
            oam@,
            line as int,
            i as int,
            prev,
            bg_color_nonzero@,
            bg_tile_priority@,
        ));
    }

    fn draw_sprites(
        &self,
        line: usize,
        oam: &[u8],
        line_rgb: &mut Vec<Rgb>,
        bg_color_nonzero: &Vec<bool>,
        bg_tile_priority: &Vec<bool>,
    )
        requires
            self@.wf(),
            oam.len() == 0xA0,
            line < 144,
            old(line_rgb).len() == 160,
            bg_color_nonzero.len() == 160,
            bg_tile_priority.len() == 160,
        ensures
            final(line_rgb)@ == apply_sprites(
                self@,
                oam@,
                line as int,
                visible_sprites(oam@, line as int, sprite_height_spec(self@)),
                visible_sprites(oam@, line as int, sprite_height_spec(self@)).len() as int,
                old(line_rgb)@,
                bg_color_nonzero@,
                bg_tile_priority@,
            ),
    {
        let sprite_height: i32 = if self.lcdc & 0x04 != 0 { 16 } else { 8 };
        let sprites = self.collect_sprites(line, oam, sprite_height);
        let ghost list = visible_sprites(oam@, line as int, sprite_height as int);
        proof {
            lemma_visible_sprites_on_line(oam@, line as int, sprite_height as int);
        }
        let mut k: usize = 0;
        while k < sprites.len()
            invariant
                self@.wf(),
                oam.len() == 0xA0,
                line < 144,
                k <= sprites.len(),
                sprite_height == sprite_height_spec(self@),
                list == visible_sprites(oam@, line as int, sprite_height as int),
                sprites@.len() == list.len(),
                forall|j: int| 0 <= j < list.len() ==> sprite_on_line(oam@, line as int, sprite_height as int, #[trigger] list[j]),
                forall|j: int|
                    0 <= j < sprites@.len() ==> {
                        &&& #[trigger] sprites@[j].1 == list[j]
                        &&& sprites@[j].1 < 40
                        &&& sprites@[j].0 == oam@[4 * sprites@[j].1 + 1] - 8
                    },
                line_rgb.len() == 160,
                bg_color_nonzero.len() == 160,
                bg_tile_priority.len() == 160,
                line_rgb@ == apply_sprites(
                    self@,
                    oam@,
                    line as int,
                    list,
                    k as int,
                    old(line_rgb)@,
                    bg_color_nonzero@,
                    bg_tile_priority@,
                ),
            decreases sprites.len() - k,
        {
            let (sx, i) = sprites[k];
            assert(sprites@[k as int].1 == list[k as int]);
            self.draw_sprite(line, oam, sx, i, line_rgb, bg_color_nonzero, bg_tile_priority);
            k = k + 1;
        }
    }

    // -----------------------------------------------------------------------
    // Scanline rendering — coordinator
    // -----------------------------------------------------------------------
    pub(crate) fn render_scanline(&mut self, oam: &[u8])
        requires
            old(self)@.wf(),
            oam.len() == 0xA0,
        ensures
            final(self)@ == (PpuView { framebuffer: render_line_spec(old(self)@, oam@), ..old(self)@ }),
    {
        let line = self.ly as usize;
        if line >= 144 {
            return;
        }
        let mut line_rgb = black_line();
        let mut bg_color_nonzero = false_line();
        let mut bg_tile_priority = false_line();  // GBC only: tile attr bit 7

        // DMG: LCDC bit 0 gates BG. GBC: bit 0 only affects priority, BG always draws.
        if self.lcdc & 0x01 != 0 || self.cgb_mode {
            self.draw_bg(line, &mut line_rgb, &mut bg_color_nonzero, &mut bg_tile_priority);
        }
        if self.lcdc & 0x20 != 0 && line >= self.wy as usize {
            self.draw_window(line, &mut line_rgb, &mut bg_color_nonzero, &mut bg_tile_priority);
        }
        let ghost v = self@;
        proof {
            assert(line_rgb@ =~= Seq::new(160, |px: int| base_pixel(v, line as int, px).0));
            assert(bg_color_nonzero@ =~= Seq::new(160, |px: int| base_pixel(v, line as int, px).1));
            assert(bg_tile_priority@ =~= Seq::new(160, |px: int| base_pixel(v, line as int, px).2));
        }
        if self.lcdc & 0x02 != 0 {
            self.draw_sprites(line, oam, &mut line_rgb, &bg_color_nonzero, &bg_tile_priority);
        }
        let ghost colors = line_colors(v, oam@, line as int);
        assert(line_rgb@ == colors);
        let fb_base = line * 160 * 3;
        let mut px: usize = 0;
        while px < 160
            invariant
                px <= 160,
                line < 144,
                fb_base == line * 480,
                self@ == (PpuView { framebuffer: self@.framebuffer, ..v }),
                self.framebuffer.len() == fb_len(),
                line_rgb@ == colors,
                line_rgb@.len() == 160,
                forall|i: int|
                    0 <= i < fb_len() ==> #[trigger] self.framebuffer@[i] == if fb_base <= i < fb_base + px * 3 {
                        channel(colors[(i - fb_base) / 3], (i - fb_base) % 3)
                    } else {
                        v.framebuffer[i]
                    },
            decreases 160 - px,
        {
            let rgb = line_rgb[px];
            self.framebuffer.set(fb_base + px * 3, rgb.0);
            self.framebuffer.set(fb_base + px * 3 + 1, rgb.1);
            self.framebuffer.set(fb_base + px * 3 + 2, rgb.2);
            px = px + 1;
        }
        assert(self.framebuffer@ =~= render_line_spec(v, oam@));
    }
}

/// Every index that `scan_sprites` adds is an OAM entry covering the line.
proof fn lemma_scan_sprites_on_line(oam: Seq<u8>, line: int, h: int, i: int, acc: Seq<int>)
    requires
        0 <= i,
        forall|j: int| 0 <= j < acc.len() ==> sprite_on_line(oam, line, h, #[trigger] acc[j]),
    ensures
        forall|j: int|
            0 <= j < scan_sprites(oam, line, h, i, acc).len() ==> sprite_on_line(
                oam,
                line,
                h,
                #[trigger] scan_sprites(oam, line, h, i, acc)[j],
            ),
    decreases 40 - i,
{
    if !(i >= 40 || acc.len() >= 10) {
        let next = if sprite_on_line(oam, line, h, i) { acc.push(i) } else { acc };
        assert forall|j: int| 0 <= j < next.len() implies sprite_on_line(oam, line, h, #[trigger] next[j]) by {
            if j < acc.len() {
                assert(next[j] == acc[j]);
            }
        }
        lemma_scan_sprites_on_line(oam, line, h, i + 1, next);
        assert(scan_sprites(oam, line, h, i, acc) == scan_sprites(oam, line, h, i + 1, next));
    }
}

/// Every visible sprite covers the line.
proof fn lemma_visible_sprites_on_line(oam: Seq<u8>, line: int, h: int)
    ensures
        forall|j: int|
            0 <= j < visible_sprites(oam, line, h).len() ==> sprite_on_line(
                oam,
                line,
                h,
                #[trigger] visible_sprites(oam, line, h)[j],
            ),
{
    let s = scan_sprites(oam, line, h, 0, Seq::empty());
    lemma_scan_sprites_on_line(oam, line, h, 0, Seq::empty());
    assert forall|j: int| 0 <= j < s.reverse().len() implies sprite_on_line(oam, line, h, #[trigger] s.reverse()[j]) by {
        assert(s.reverse()[j] == s[s.len() - 1 - j]);
    }
}

/// On DMG a sprite is coloured through the palette its OAM attribute bit 4
/// selects: OBP1 (0xFF49) when set, OBP0 (0xFF48) when clear. The pixel it draws
/// is either the colour underneath or one of the three shades that palette gives
/// colour numbers 1–3, and it does not depend on the other palette at all.
pub proof fn lemma_dmg_sprite_palette(
    v: PpuView,
    oam: Seq<u8>,
    line: int,
    i: int,
    px: int,
    cur: Rgb,
    nz: bool,
    prio: bool,
    other: u8,
)
    requires
        !v.cgb_mode,
    ensures
        ({
            let flags = oam[4 * i + 3];
            let pal = if flags & 0x10 != 0 { v.obp1 } else { v.obp0 };
            let r = sprite_pixel(v, oam, line, i, px, cur, nz, prio);
            &&& (r == cur || r == dmg_color_spec((pal >> 2u8) & 3) || r == dmg_color_spec((pal >> 4u8) & 3)
                || r == dmg_color_spec((pal >> 6u8) & 3))
            &&& flags & 0x10 != 0 ==> sprite_pixel(PpuView { obp0: other, ..v }, oam, line, i, px, cur, nz, prio) == r
            &&& flags & 0x10 == 0 ==> sprite_pixel(PpuView { obp1: other, ..v }, oam, line, i, px, cur, nz, prio) == r
        }),
{
    let h = sprite_height_spec(v);
    let sy = oam[4 * i] - 16;
    let sx = oam[4 * i + 1] - 8;
    let flags = oam[4 * i + 3];
    let tile = oam[4 * i + 2] & (if h == 16 { 0xFEu8 } else { 0xFFu8 });
    let raw = line - sy;
    let ty = if flags & 0x40 != 0 { h - 1 - raw } else { raw };
    let row = tile * 16 + ty * 2;
    let lo = v.vram[row];
    let hi = v.vram[row + 1];
    let tx = px - sx;
    let bit = (if flags & 0x20 != 0 { tx } else { 7 - tx }) as u8;
    lemma_u8(hi >> bit);
    lemma_u8(lo >> bit);
    let cid = color_id(lo, hi, bit);
    assert(cid < 4);
}

} // verus!
