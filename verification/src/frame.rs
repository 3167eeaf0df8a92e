use vstd::prelude::*;
use crate::buffer::{zeroed, zeros};
use crate::controller_register::{has_bit, spec_bknd_pattern_addr, spec_sprt_pattern_addr, CTRL_SPRITE_SIZE};
use crate::palette::{spec_system_palette, system_palette};
use crate::ppu::{Mirroring, Ppu, PpuState};

verus! {

pub const FRAME_WIDTH: usize = 256;
pub const FRAME_HEIGHT: usize = 240;
/// Bytes in a frame: three (red, green, blue) per pixel.
pub const FRAME_BYTES: usize = 184320;

/// An RGB24 image of the screen, row by row.
pub struct Frame {
    pub data: Vec<u8>,
}

/// Colour of the `q`-th pixel, counting row by row.
pub open spec fn pixel_q(data: Seq<u8>, q: int) -> (u8, u8, u8) {
    (data[3 * q], data[3 * q + 1], data[3 * q + 2])
}

/// Colour of the pixel in row `row`, column `col`.
pub open spec fn pixel_at(data: Seq<u8>, row: int, col: int) -> (u8, u8, u8) {
    pixel_q(data, row * 256 + col)
}

/// Whether a write at (`x`, `y`) lands on the pixel (`row`, `col`). Writes
/// are placed by offset, so a column past the right edge continues on the
/// next row.
pub open spec fn lands_at(x: int, y: int, row: int, col: int) -> bool {
    ||| x < 256 && row == y && col == x
    ||| 256 <= x && row == y + 1 && col == x - 256
}

/// The frame bytes after `set_pixel(x, y, rgb)`: the write is dropped when
/// it falls past the end of the buffer.
pub open spec fn spec_set_pixel(data: Seq<u8>, x: int, y: int, rgb: (u8, u8, u8)) -> Seq<u8> {
    let base = y * 3 * 256 + x * 3;
    if base + 2 < data.len() {
        data.update(base, rgb.0).update(base + 1, rgb.1).update(base + 2, rgb.2)
    } else {
        data
    }
}

/// Bit `7 - x` of a pattern plane byte: the plane's bit for column `x` of the tile.
pub open spec fn plane_bit(b: u8, x: int) -> u8 {
    (b >> ((7 - x) as u8)) & 1
}

/// Colour number (0-3) of column `x`, row `y` of the tile starting at `start`,
/// with the plane at `start + y + 8` as the high bit.
pub open spec fn tile_value(chr: Seq<u8>, start: int, x: int, y: int) -> int {
    2 * plane_bit(chr[start + y + 8], x) + plane_bit(chr[start + y], x)
}

/// The same with the plane at `start + y` as the high bit, as the tile viewers
/// decode tiles.
pub open spec fn viewer_tile_value(chr: Seq<u8>, start: int, x: int, y: int) -> int {
    2 * plane_bit(chr[start + y], x) + plane_bit(chr[start + y + 8], x)
}

/// Colours the tile viewers use for colour numbers 0 to 3.
pub open spec fn viewer_color(v: int) -> (u8, u8, u8) {
    if v == 0 {
        spec_system_palette(0x01)
    } else if v == 1 {
        spec_system_palette(0x23)
    } else if v == 2 {
        spec_system_palette(0x27)
    } else {
        spec_system_palette(0x30)
    }
}


/// Whether tile `n` of pattern table `bank` lies wholly within `len` bytes
/// of pattern data.
pub open spec fn bank_tile_fits(len: int, bank: int, n: int) -> bool {
    bank * 0x1000 + n * 16 + 15 < len
}

/// The zeroed buffer is a black frame.
proof fn lemma_zeros_black(blank: Seq<u8>)
    requires
        blank == zeros(FRAME_BYTES as nat),
    ensures
        forall|row: int, col: int|
            0 <= row < 240 && 0 <= col < 256 ==> #[trigger] pixel_at(blank, row, col) == (0u8, 0u8, 0u8),
{
    assert forall|row: int, col: int| 0 <= row < 240 && 0 <= col < 256 implies #[trigger] pixel_at(
        blank,
        row,
        col,
    ) == (0u8, 0u8, 0u8) by {
        let q = row * 256 + col;
        assert(0 <= 3 * q && 3 * q + 2 < FRAME_BYTES);
    }
}

/// Pixel (`x`, `y`) of grid tile `n` sits at row `(n / 16) * 8 + y`, column
/// `(n % 16) * 8 + x`, and maps back to tile `n`.
proof fn lemma_tile_grid(n: int, x: int, y: int)
    requires
        0 <= n < 256,
        0 <= x < 8,
        0 <= y < 8,
    ensures
        ({
            let row = (n / 16) * 8 + y;
            let col = (n % 16) * 8 + x;
            &&& row < 128 && col < 128
            &&& row / 8 == n / 16 && row % 8 == y
            &&& col / 8 == n % 16 && col % 8 == x
            &&& (row / 8) * 16 + col / 8 == n
        }),
{
}

/// A rectangle of name table pixels: columns `x1..x2`, rows `y1..y2`.
struct Rect {
    x1: usize,
    y1: usize,
    x2: usize,
    y2: usize,
}

impl Rect {
    fn new(x1: usize, y1: usize, x2: usize, y2: usize) -> (r: Self)
        ensures
            r.x1 == x1 && r.y1 == y1 && r.x2 == x2 && r.y2 == y2,
    {
        Rect { x1: x1, y1: y1, x2: x2, y2: y2 }
    }
}

/// One name table drawn onto the screen: the table at VRAM offset `nt`,
/// the part `x1..x2` by `y1..y2` of it that is shown, and the offset
/// (`dx`, `dy`) from name table to screen coordinates.
pub struct Layer {
    pub nt: int,
    pub x1: int,
    pub y1: int,
    pub x2: int,
    pub y2: int,
    pub dx: int,
    pub dy: int,
}

/// First pattern byte of the background tile under name table pixel (`px`, `py`).
pub open spec fn bg_tile_start(p: PpuState, nt: int, px: int, py: int) -> int {
    spec_bknd_pattern_addr(p.ctrl) + p.vram[nt + (py / 8) * 32 + px / 8] * 16
}

/// Whether the pattern data holds that tile in full.
pub open spec fn bg_has_data(p: PpuState, nt: int, px: int, py: int) -> bool {
    bg_tile_start(p, nt, px, py) + 15 < p.chr_rom.len()
}

/// Background palette (0-3) the attribute table gives the tile in column
/// `col`, row `row` of the name table: two bits per 2x2-tile quadrant.
pub open spec fn bg_palette_number(p: PpuState, nt: int, col: int, row: int) -> u8 {
    let attr_byte = p.vram[nt + 0x3c0 + (row / 4) * 8 + col / 4];
    let a = col % 4 / 2;
    let b = row % 4 / 2;
    if a == 0 && b == 0 {
        attr_byte & 0b11
    } else if a == 1 && b == 0 {
        (attr_byte >> 2u8) & 0b11
    } else if a == 0 && b == 1 {
        (attr_byte >> 4u8) & 0b11
    } else {
        (attr_byte >> 6u8) & 0b11
    }
}

/// System palette index of name table pixel (`px`, `py`): colour 0 is the
/// universal background colour, colours 1-3 come from the tile's palette.
pub open spec fn bg_color_index(p: PpuState, nt: int, px: int, py: int) -> u8 {
    let v = tile_value(p.chr_rom, bg_tile_start(p, nt, px, py), px % 8, py % 8);
    if v == 0 {
        p.palette_table[0]
    } else {
        p.palette_table[1 + bg_palette_number(p, nt, px / 8, py / 8) * 4 + v - 1]
    }
}

/// Every pixel of every background tile the pattern data holds has a colour
/// in the system palette.
pub open spec fn bg_colors_ok(p: PpuState, nt: int) -> bool {
    forall|px: int, py: int|
        0 <= px < 256 && 0 <= py < 240 && #[trigger] bg_has_data(p, nt, px, py) ==> bg_color_index(
            p,
            nt,
            px,
            py,
        ) < 64
}

/// Whether screen pixel (`row`, `col`) shows a pixel of layer `l`.
pub open spec fn layer_covers(p: PpuState, l: Layer, row: int, col: int) -> bool {
    let px = col - l.dx;
    let py = row - l.dy;
    &&& 0 <= px < 256 && 0 <= py < 240
    &&& l.x1 <= px < l.x2 && l.y1 <= py < l.y2
    &&& bg_has_data(p, l.nt, px, py)
}

/// Colour layer `l` gives screen pixel (`row`, `col`).
pub open spec fn layer_rgb(p: PpuState, l: Layer, row: int, col: int) -> (u8, u8, u8) {
    spec_system_palette(bg_color_index(p, l.nt, col - l.dx, row - l.dy))
}

/// Name table pixel (`x`, `y`) of tile `i` lies at column `(i % 32) * 8 + x`,
/// row `(i / 32) * 8 + y`, and maps back to that tile and position.
proof fn lemma_nametable_grid(i: int, x: int, y: int)
    requires
        0 <= i < 0x3c0,
        0 <= x < 8,
        0 <= y < 8,
    ensures
        ({
            let px = (i % 32) * 8 + x;
            let py = (i / 32) * 8 + y;
            &&& 0 <= px < 256 && 0 <= py < 240
            &&& px / 8 == i % 32 && px % 8 == x
            &&& py / 8 == i / 32 && py % 8 == y
            &&& (py / 8) * 32 + px / 8 == i
        }),
{
}

/// Byte `b` of sprite `k`'s OAM entry: 0 is its top row, 1 its tile, 2 its
/// attributes, 3 its left column.
pub open spec fn oam_byte(p: PpuState, k: int, b: int) -> u8 {
    p.oam_data[4 * k + b]
}

/// Height of the sprites in pixels: 8, or 16 when PPUCTRL bit 5 asks for
/// tall sprites.
pub open spec fn sprite_height(p: PpuState) -> int {
    if has_bit(p.ctrl, CTRL_SPRITE_SIZE) {
        16
    } else {
        8
    }
}

/// First pattern byte of tile `half` of sprite `k` (0 for its top 8 rows,
/// 1 for the bottom 8 of a tall sprite). A tall sprite takes its pattern
/// table from bit 0 of its tile byte, and shows the even tile above the one
/// after it.
pub open spec fn sprite_tile_start(p: PpuState, k: int, half: int) -> int {
    let t = oam_byte(p, k, 1);
    if sprite_height(p) == 16 {
        (t % 2) * 0x1000 + ((t / 2) * 2 + half) * 16
    } else {
        spec_sprt_pattern_addr(p.ctrl) + t * 16
    }
}

pub open spec fn sprite_has_data(p: PpuState, k: int, half: int) -> bool {
    sprite_tile_start(p, k, half) + 15 < p.chr_rom.len()
}

pub open spec fn sprite_flip_horizontal(p: PpuState, k: int) -> bool {
    (oam_byte(p, k, 2) >> 6u8) & 1 == 1
}

pub open spec fn sprite_flip_vertical(p: PpuState, k: int) -> bool {
    (oam_byte(p, k, 2) >> 7u8) & 1 == 1
}

/// System palette index of colour `v` (1-3) of sprite `k`.
pub open spec fn sprite_color_index(p: PpuState, k: int, v: int) -> u8 {
    p.palette_table[0x11 + (oam_byte(p, k, 2) & 0b11) * 4 + v - 1]
}

/// Every opaque pixel of every sprite tile the pattern data holds has a
/// colour in the system palette.
pub open spec fn sprites_ok(p: PpuState) -> bool {
    forall|k: int, half: int, x: int, y: int|
        0 <= k < 64 && 0 <= half < sprite_height(p) / 8 && 0 <= x < 8 && 0 <= y < 8 && sprite_has_data(
            p,
            k,
            half,
        ) && #[trigger] tile_value(p.chr_rom, sprite_tile_start(p, k, half), x, y) != 0
            ==> sprite_color_index(p, k, tile_value(p.chr_rom, sprite_tile_start(p, k, half), x, y)) < 64
}

/// Offset within a sprite `h` pixels tall at (`tx`, `ty`) of screen pixel
/// (`row`, `col`), if the sprite reaches it. Sprite pixels past the right
/// edge continue on the next row.
pub open spec fn sprite_offset(tx: int, ty: int, h: int, row: int, col: int) -> Option<(int, int)> {
    if tx <= col < tx + 8 && ty <= row < ty + h {
        Some((col - tx, row - ty))
    } else if col + 256 < tx + 8 && ty + 1 <= row < ty + 1 + h {
        Some((col + 256 - tx, row - ty - 1))
    } else {
        None
    }
}

/// Column and row within the sprite's pattern shown at offset (`dx`, `dy`)
/// of sprite `k`, after flipping.
pub open spec fn sprite_texel(p: PpuState, k: int, dx: int, dy: int) -> (int, int) {
    (
        if sprite_flip_horizontal(p, k) { 7 - dx } else { dx },
        if sprite_flip_vertical(p, k) { sprite_height(p) - 1 - dy } else { dy },
    )
}

/// The sprite offset of screen pixel (`row`, `col`) for sprite `k`.
pub open spec fn sprite_offset_at(p: PpuState, k: int, row: int, col: int) -> Option<(int, int)> {
    sprite_offset(oam_byte(p, k, 3) as int, oam_byte(p, k, 0) as int, sprite_height(p), row, col)
}

/// Pattern column and row of sprite `k` at screen pixel (`row`, `col`), when
/// it reaches it.
pub open spec fn sprite_texel_at(p: PpuState, k: int, row: int, col: int) -> (int, int) {
    let off = sprite_offset_at(p, k, row, col).unwrap();
    sprite_texel(p, k, off.0, off.1)
}

/// Colour number of sprite `k` at screen pixel (`row`, `col`), when it reaches it.
pub open spec fn sprite_value(p: PpuState, k: int, row: int, col: int) -> int {
    let t = sprite_texel_at(p, k, row, col);
    tile_value(p.chr_rom, sprite_tile_start(p, k, t.1 / 8), t.0, t.1 % 8)
}

/// Whether sprite `k` paints screen pixel (`row`, `col`): it reaches it with
/// a non-transparent colour.
pub open spec fn sprite_covers(p: PpuState, k: int, row: int, col: int) -> bool {
    &&& sprite_offset_at(p, k, row, col) is Some
    &&& sprite_has_data(p, k, sprite_texel_at(p, k, row, col).1 / 8)
    &&& sprite_value(p, k, row, col) != 0
}

pub open spec fn sprite_rgb(p: PpuState, k: int, row: int, col: int) -> (u8, u8, u8) {
    spec_system_palette(sprite_color_index(p, k, sprite_value(p, k, row, col)))
}

/// Whether sprite `k` has priority bit 5 set: it is drawn behind opaque
/// background pixels.
pub open spec fn sprite_behind(p: PpuState, k: int) -> bool {
    (oam_byte(p, k, 2) >> 5u8) & 1 == 1
}

/// Whether the pattern pixel layer `l` shows at screen pixel (`row`, `col`)
/// is opaque (colour 1-3) rather than transparent (colour 0).
pub open spec fn layer_opaque(p: PpuState, l: Layer, row: int, col: int) -> bool {
    let px = col - l.dx;
    let py = row - l.dy;
    tile_value(p.chr_rom, bg_tile_start(p, l.nt, px, py), px % 8, py % 8) != 0
}

/// Whether the background at screen pixel (`row`, `col`) is an opaque
/// pattern pixel rather than the universal background colour.
pub open spec fn bg_opaque(p: PpuState, row: int, col: int) -> bool {
    let (l1, l2) = bg_layers(p);
    if layer_covers(p, l2, row, col) {
        layer_opaque(p, l2, row, col)
    } else if layer_covers(p, l1, row, col) {
        layer_opaque(p, l1, row, col)
    } else {
        false
    }
}

/// Colour shown at (`row`, `col`) when sprite `k` is the first sprite that
/// paints it: a sprite behind the background yields to an opaque background
/// pixel.
pub open spec fn sprite_shown_rgb(p: PpuState, k: int, row: int, col: int) -> (u8, u8, u8) {
    if sprite_behind(p, k) && bg_opaque(p, row, col) {
        bg_pixel(p, row, col)
    } else {
        sprite_rgb(p, k, row, col)
    }
}

/// The first sprite from `k` on that paints (`row`, `col`): sprites are drawn
/// from the last to the first, so the lowest-numbered one shows.
pub open spec fn top_sprite(p: PpuState, row: int, col: int, k: int) -> Option<int>
    decreases 64 - k,
{
    if k >= 64 {
        None
    } else if sprite_covers(p, k, row, col) {
        Some(k)
    } else {
        top_sprite(p, row, col, k + 1)
    }
}

/// The two name table layers drawn, first and second, for the PPU's
/// mirroring, latched name table and latched scroll position.
pub open spec fn bg_layers(p: PpuState) -> (Layer, Layer) {
    let sx = p.scroll.scroll_x as int;
    let sy = p.scroll.scroll_y as int;
    let na = p.latched_nametable_addr;
    match p.mirroring {
        Mirroring::VERTICAL => {
            let (main, second) = if na == 0x2400 || na == 0x2c00 { (0x400int, 0int) } else { (0int, 0x400int) };
            (
                Layer { nt: main, x1: sx, y1: sy, x2: 256, y2: 240, dx: -sx, dy: -sy },
                Layer { nt: second, x1: 0, y1: sy, x2: 256, y2: 240, dx: 256 - sx, dy: -sy },
            )
        },
        Mirroring::HORIZONTAL => {
            let (top_dy, bottom_dy) = if na == 0x2800 || na == 0x2c00 {
                (-(240 + sy), -sy)
            } else {
                (-sy, 240 - sy)
            };
            (
                Layer { nt: 0, x1: sx, y1: 0, x2: 256, y2: 240, dx: -sx, dy: top_dy },
                Layer { nt: 0x400, x1: sx, y1: 0, x2: 256, y2: 240, dx: -sx, dy: bottom_dy },
            )
        },
    }
}

/// Background colour of screen pixel (`row`, `col`): the second layer over
/// the first over the universal background colour.
pub open spec fn bg_pixel(p: PpuState, row: int, col: int) -> (u8, u8, u8) {
    let (l1, l2) = bg_layers(p);
    if layer_covers(p, l2, row, col) {
        layer_rgb(p, l2, row, col)
    } else if layer_covers(p, l1, row, col) {
        layer_rgb(p, l1, row, col)
    } else {
        spec_system_palette(p.palette_table[0])
    }
}

/// Colour of screen pixel (`row`, `col`) in the rendered frame: the first
/// sprite that paints it, unless that sprite is behind an opaque background
/// pixel, else the background.
pub open spec fn render_pixel(p: PpuState, row: int, col: int) -> (u8, u8, u8) {
    match top_sprite(p, row, col, 0) {
        Some(k) => sprite_shown_rgb(p, k, row, col),
        None => bg_pixel(p, row, col),
    }
}

/// Every colour the renderer looks up is in the system palette, and the
/// vertical scroll does not pass the bottom of the top name table when
/// horizontal mirroring shows it.
pub open spec fn render_ok(p: PpuState) -> bool {
    let na = p.latched_nametable_addr;
    &&& p.mirroring is HORIZONTAL && !(na == 0x2800 || na == 0x2c00) ==> p.scroll.scroll_y <= 240
    &&& p.palette_table[0] < 64
    &&& bg_colors_ok(p, 0)
    &&& bg_colors_ok(p, 0x400)
    &&& sprites_ok(p)
}

/// A write at sprite offset (`dx`, `dy`) lands exactly on the pixels whose
/// sprite offset that is.
proof fn lemma_sprite_lands(tx: int, ty: int, h: int, dx: int, dy: int, row: int, col: int)
    requires
        0 <= tx < 256,
        0 <= ty < 256,
        h == 8 || h == 16,
        0 <= dx < 8,
        0 <= dy < h,
        0 <= col < 256,
    ensures
        lands_at(tx + dx, ty + dy, row, col) <==> sprite_offset(tx, ty, h, row, col) == Some((dx, dy)),
{
}

/// A write at (`x`, `y`) changes exactly the pixel it lands on.
pub proof fn lemma_set_pixel(data: Seq<u8>, x: int, y: int, rgb: (u8, u8, u8))
    requires
        data.len() == FRAME_BYTES,
        0 <= x < 512,
        0 <= y,
    ensures
        spec_set_pixel(data, x, y, rgb).len() == FRAME_BYTES,
        forall|row: int, col: int|
            0 <= row < 240 && 0 <= col < 256 ==> #[trigger] pixel_at(spec_set_pixel(data, x, y, rgb), row, col)
                == if lands_at(x, y, row, col) {
                rgb
            } else {
                pixel_at(data, row, col)
            },
{
    assert forall|row: int, col: int| 0 <= row < 240 && 0 <= col < 256 implies #[trigger] pixel_at(
        spec_set_pixel(data, x, y, rgb),
        row,
        col,
    ) == if lands_at(x, y, row, col) {
        rgb
    } else {
        pixel_at(data, row, col)
    } by {
        let q = row * 256 + col;
        let qs = y * 256 + x;
        if lands_at(x, y, row, col) {
            assert(q == qs);
        } else {
            assert(q != qs);
        }
    }
}

/// Computes one pattern bit as `plane_bit` defines it.
fn plane_bit_exec(b: u8, x: usize) -> (r: u8)
    requires
        x < 8,
    ensures
        r == plane_bit(b, x as int),
        r <= 1,
{
    let s = (7 - x) as u8;
    assert((b >> s) & 1 <= 1) by (bit_vector);
    (b >> s) & 1
}

/// Combines two pattern bits into a colour number, high bit first.
fn combine_bits(hi: u8, lo: u8) -> (r: u8)
    requires
        hi <= 1,
        lo <= 1,
    ensures
        r == 2 * hi + lo,
        r <= 3,
{
    assert((hi << 1u8) | lo == 2 * hi + lo) by (bit_vector)
        requires hi <= 1, lo <= 1;
    (hi << 1u8) | lo
}

fn viewer_color_exec(v: u8) -> (r: (u8, u8, u8))
    requires
        v <= 3,
    ensures
        r == viewer_color(v as int),
{
    if v == 0 {
        system_palette(0x01)
    } else if v == 1 {
        system_palette(0x23)
    } else if v == 2 {
        system_palette(0x27)
    } else {
        system_palette(0x30)
    }
}

/// The background palette of the tile in column `tile_column`, row
/// `tile_row` of the name table at VRAM offset `nt`.
fn bg_pallette(ppu: &Ppu, nt: usize, tile_column: usize, tile_row: usize) -> (r: [u8; 4])
    requires
        ppu@.wf(),
        nt + 0x400 <= ppu@.vram.len(),
        tile_column < 32,
        tile_row < 30,
    ensures
        r@[0] == ppu@.palette_table[0],
        forall|v: int|
            1 <= v < 4 ==> r@[v] == ppu@.palette_table[1 + bg_palette_number(
                ppu@,
                nt as int,
                tile_column as int,
                tile_row as int,
            ) * 4 + v - 1],
{
    let attr_table_idx = tile_row / 4 * 8 + tile_column / 4;
    let attr_byte = ppu.vram[nt + 0x3c0 + attr_table_idx];
    let a = tile_column % 4 / 2;
    let b = tile_row % 4 / 2;
    let pallet_idx = if a == 0 && b == 0 {
        attr_byte & 0b11
    } else if a == 1 && b == 0 {
        (attr_byte >> 2u8) & 0b11
    } else if a == 0 && b == 1 {
        (attr_byte >> 4u8) & 0b11
    } else {
        (attr_byte >> 6u8) & 0b11
    };
    assert(pallet_idx <= 3) by (bit_vector)
        requires
            pallet_idx == attr_byte & 0b11 || pallet_idx == (attr_byte >> 2u8) & 0b11 || pallet_idx
                == (attr_byte >> 4u8) & 0b11 || pallet_idx == (attr_byte >> 6u8) & 0b11;
    let pallete_start: usize = 1 + (pallet_idx as usize) * 4;
    [
        ppu.palette_table[0],
        ppu.palette_table[pallete_start],
        ppu.palette_table[pallete_start + 1],
        ppu.palette_table[pallete_start + 2],
    ]
}

/// Draws the 1KB name table at VRAM offset `nt`: the pixels of `view_port`
/// that land on the screen after moving by (`shift_x`, `shift_y`), for every
/// tile the pattern data holds.
#[verifier::rlimit(40)]
fn render_name_table(
    ppu: &Ppu,
    frame: &mut Frame,
    nt: usize,
    view_port: Rect,
    shift_x: isize,
    shift_y: isize,
)
    requires
        ppu@.wf(),
        nt + 0x400 <= ppu@.vram.len(),
        old(frame).data@.len() == FRAME_BYTES,
        bg_colors_ok(ppu@, nt as int),
        shift_x <= isize::MAX - 255,
        shift_y <= isize::MAX - 239,
    ensures
        final(frame).data@.len() == FRAME_BYTES,
        forall|row: int, col: int|
            0 <= row < 240 && 0 <= col < 256 ==> #[trigger] pixel_at(final(frame).data@, row, col) == {
                let l = Layer {
                    nt: nt as int,
                    x1: view_port.x1 as int,
                    y1: view_port.y1 as int,
                    x2: view_port.x2 as int,
                    y2: view_port.y2 as int,
                    dx: shift_x as int,
                    dy: shift_y as int,
                };
                if layer_covers(ppu@, l, row, col) {
                    layer_rgb(ppu@, l, row, col)
                } else {
                    pixel_at(old(frame).data@, row, col)
                }
            },
{
    let ghost l = Layer {
        nt: nt as int,
        x1: view_port.x1 as int,
        y1: view_port.y1 as int,
        x2: view_port.x2 as int,
        y2: view_port.y2 as int,
        dx: shift_x as int,
        dy: shift_y as int,
    };
    let ghost p = ppu@;
    let ghost start = frame.data@;
    let bank = ppu.ctrl.bknd_pattern_addr();
    let len = ppu.chr_rom.len();
    let mut i: usize = 0;
    while i < 0x3c0
        invariant
            0 <= i <= 0x3c0,
            p == ppu@,
            p.wf(),
            nt + 0x400 <= p.vram.len(),
            bank == spec_bknd_pattern_addr(p.ctrl),
            len == p.chr_rom.len(),
            bg_colors_ok(p, nt as int),
            shift_x <= isize::MAX - 255,
            shift_y <= isize::MAX - 239,
            l == (Layer {
                nt: nt as int,
                x1: view_port.x1 as int,
                y1: view_port.y1 as int,
                x2: view_port.x2 as int,
                y2: view_port.y2 as int,
                dx: shift_x as int,
                dy: shift_y as int,
            }),
            frame.data@.len() == FRAME_BYTES,
            forall|row: int, col: int|
                0 <= row < 240 && 0 <= col < 256 ==> #[trigger] pixel_at(frame.data@, row, col) == if layer_covers(p, l, row, col)
                    && ((row - l.dy) / 8) * 32 + (col - l.dx) / 8 < i {
                    layer_rgb(p, l, row, col)
                } else {
                    pixel_at(start, row, col)
                },
        decreases 0x3c0 - i,
    {
        let tile_column = i % 32;
        let tile_row = i / 32;
        let tile_idx = ppu.vram[nt + i] as u16;
        let tile_start = (bank + tile_idx * 16) as usize;
        let tile_end = tile_start + 15;
        if !(len == 0 || tile_end >= len) {
            let palette = bg_pallette(ppu, nt, tile_column, tile_row);
            let mut y: usize = 0;
            while y < 8
                invariant
                    0 <= y <= 8,
                    i < 0x3c0,
                    p == ppu@,
                    p.wf(),
                    nt + 0x400 <= p.vram.len(),
                    tile_column == i % 32,
                    tile_row == i / 32,
                    tile_start == spec_bknd_pattern_addr(p.ctrl) + p.vram[nt + i] * 16,
                    tile_end == tile_start + 15,
                    tile_end < len,
                    len == p.chr_rom.len(),
                    palette@[0] == p.palette_table[0],
                    forall|v: int|
                        1 <= v < 4 ==> palette@[v] == p.palette_table[1 + bg_palette_number(
                            p,
                            nt as int,
                            tile_column as int,
                            tile_row as int,
                        ) * 4 + v - 1],
                    bg_colors_ok(p, nt as int),
                    shift_x <= isize::MAX - 255,
                    shift_y <= isize::MAX - 239,
                    l.nt == nt && l.x1 == view_port.x1 && l.y1 == view_port.y1,
                    l.x2 == view_port.x2 && l.y2 == view_port.y2,
                    l.dx == shift_x && l.dy == shift_y,
                    frame.data@.len() == FRAME_BYTES,
                    forall|row: int, col: int|
                        0 <= row < 240 && 0 <= col < 256 ==> #[trigger] pixel_at(frame.data@, row, col) == if layer_covers(p, l, row, col)
                            && (((row - l.dy) / 8) * 32 + (col - l.dx) / 8 < i || (((row - l.dy) / 8) * 32 + (col - l.dx) / 8 == i
                            && (row - l.dy) % 8 < y)) {
                            layer_rgb(p, l, row, col)
                        } else {
                            pixel_at(start, row, col)
                        },
                decreases 8 - y,
            {
                let upper = ppu.chr_rom[tile_start + y];
                let lower = ppu.chr_rom[tile_start + y + 8];
                let mut x: usize = 8;
                while x > 0
                    invariant
                        0 <= x <= 8,
                        y < 8,
                        i < 0x3c0,
                        p == ppu@,
                        p.wf(),
                        nt + 0x400 <= p.vram.len(),
                        tile_column == i % 32,
                        tile_row == i / 32,
                        tile_start == spec_bknd_pattern_addr(p.ctrl) + p.vram[nt + i] * 16,
                        tile_end == tile_start + 15,
                        tile_end < len,
                        len == p.chr_rom.len(),
                        upper == p.chr_rom[tile_start + y],
                        lower == p.chr_rom[tile_start + y + 8],
                        palette@[0] == p.palette_table[0],
                        forall|v: int|
                            1 <= v < 4 ==> palette@[v] == p.palette_table[1 + bg_palette_number(
                                p,
                                nt as int,
                                tile_column as int,
                                tile_row as int,
                            ) * 4 + v - 1],
                        bg_colors_ok(p, nt as int),
                        shift_x <= isize::MAX - 255,
                        shift_y <= isize::MAX - 239,
                        l.nt == nt && l.x1 == view_port.x1 && l.y1 == view_port.y1,
                        l.x2 == view_port.x2 && l.y2 == view_port.y2,
                        l.dx == shift_x && l.dy == shift_y,
                        frame.data@.len() == FRAME_BYTES,
                        forall|row: int, col: int|
                            0 <= row < 240 && 0 <= col < 256 ==> #[trigger] pixel_at(frame.data@, row, col) == if layer_covers(p, l, row, col)
                                && (((row - l.dy) / 8) * 32 + (col - l.dx) / 8 < i || (((row - l.dy) / 8) * 32 + (col - l.dx) / 8 == i
                                && ((row - l.dy) % 8 < y || ((row - l.dy) % 8 == y && (col - l.dx) % 8 >= x)))) {
                                layer_rgb(p, l, row, col)
                            } else {
                                pixel_at(start, row, col)
                            },
                    decreases x,
                {
                    x = x - 1;
                    let value = combine_bits(plane_bit_exec(lower, x), plane_bit_exec(upper, x));
                    let pixel_x = tile_column * 8 + x;
                    let pixel_y = tile_row * 8 + y;
                    proof {
                        lemma_nametable_grid(i as int, x as int, y as int);
                        assert(bg_has_data(p, nt as int, pixel_x as int, pixel_y as int));
                        assert(bg_color_index(p, nt as int, pixel_x as int, pixel_y as int) < 64);
                    }
                    let index = if value == 0 {
                        ppu.palette_table[0]
                    } else {
                        palette[value as usize]
                    };
                    let rgb = system_palette(index);
                    if pixel_x >= view_port.x1 && pixel_x < view_port.x2 && pixel_y >= view_port.y1
                        && pixel_y < view_port.y2 {
                        let screen_x = shift_x + pixel_x as isize;
                        let screen_y = shift_y + pixel_y as isize;
                        if screen_x >= 0 && screen_x < 256 && screen_y >= 0 && screen_y < 240 {
                            proof {
                                lemma_set_pixel(frame.data@, screen_x as int, screen_y as int, rgb);
                            }
                            frame.set_pixel(screen_x as usize, screen_y as usize, rgb);
                        }
                    }
                }
                y = y + 1;
            }
        }
        i = i + 1;
    }
}

/// The palette of sprite palette `pallete_idx` (0-3); colour 0 is transparent.
fn sprite_palette(ppu: &Ppu, pallete_idx: u8) -> (r: [u8; 4])
    requires
        ppu@.wf(),
        pallete_idx <= 3,
    ensures
        r@[0] == 0,
        forall|v: int|
            1 <= v < 4 ==> r@[v] == ppu@.palette_table[0x11 + pallete_idx * 4 + v - 1],
{
    let start = 0x11 + (pallete_idx * 4) as usize;
    [0, ppu.palette_table[start], ppu.palette_table[start + 1], ppu.palette_table[start + 2]]
}

/// Whether the layer (`nt`, `x1`..256, `y1`..240, shifted by `dx`, `dy`)
/// covers screen pixel (`row`, `col`), and if it does, whether its pattern
/// pixel there is opaque.
fn layer_opaque_exec(
    ppu: &Ppu,
    nt: usize,
    x1: usize,
    y1: usize,
    dx: isize,
    dy: isize,
    row: usize,
    col: usize,
) -> (r: (bool, bool))
    requires
        ppu@.wf(),
        nt == 0 || nt == 0x400,
        row < 240,
        col < 256,
        -600 <= dx <= 600,
        -600 <= dy <= 600,
    ensures
        ({
            let l = Layer {
                nt: nt as int,
                x1: x1 as int,
                y1: y1 as int,
                x2: 256,
                y2: 240,
                dx: dx as int,
                dy: dy as int,
            };
            &&& r.0 == layer_covers(ppu@, l, row as int, col as int)
            &&& r.0 ==> r.1 == layer_opaque(ppu@, l, row as int, col as int)
        }),
{
    let px = col as isize - dx;
    let py = row as isize - dy;
    if px < 0 || px >= 256 || py < 0 || py >= 240 {
        return (false, false);
    }
    let pxu = px as usize;
    let pyu = py as usize;
    if pxu < x1 || pyu < y1 {
        return (false, false);
    }
    let tile_idx = ppu.vram[nt + (pyu / 8) * 32 + pxu / 8] as usize;
    let start = ppu.ctrl.bknd_pattern_addr() as usize + tile_idx * 16;
    if start + 15 >= ppu.chr_rom.len() {
        return (false, false);
    }
    let v = combine_bits(
        plane_bit_exec(ppu.chr_rom[start + pyu % 8 + 8], pxu % 8),
        plane_bit_exec(ppu.chr_rom[start + pyu % 8], pxu % 8),
    );
    (true, v != 0)
}

/// Computes `bg_opaque`.
fn bg_opaque_exec(ppu: &Ppu, row: usize, col: usize) -> (r: bool)
    requires
        ppu@.wf(),
        row < 240,
        col < 256,
    ensures
        r == bg_opaque(ppu@, row as int, col as int),
{
    let ghost p = ppu@;
    let ghost (l1, l2) = bg_layers(p);
    let sx = ppu.scroll.scroll_x as usize;
    let sy = ppu.scroll.scroll_y as usize;
    let na = ppu.latched_nametable_addr;
    let (first, second) = match ppu.mirroring {
        Mirroring::VERTICAL => {
            let (main, other) = if na == 0x2400 || na == 0x2c00 {
                (0x400usize, 0usize)
            } else {
                (0usize, 0x400usize)
            };
            (
                (main, sx, sy, -(sx as isize), -(sy as isize)),
                (other, 0usize, sy, 256 - sx as isize, -(sy as isize)),
            )
        },
        Mirroring::HORIZONTAL => {
            let (top_dy, bottom_dy) = if na == 0x2800 || na == 0x2c00 {
                (-(240 + sy as isize), -(sy as isize))
            } else {
                (-(sy as isize), 240 - sy as isize)
            };
            ((0usize, sx, 0usize, -(sx as isize), top_dy), (0x400usize, sx, 0usize, -(sx as isize), bottom_dy))
        },
    };
    assert(l1 == (Layer {
        nt: first.0 as int,
        x1: first.1 as int,
        y1: first.2 as int,
        x2: 256,
        y2: 240,
        dx: first.3 as int,
        dy: first.4 as int,
    }));
    assert(l2 == (Layer {
        nt: second.0 as int,
        x1: second.1 as int,
        y1: second.2 as int,
        x2: 256,
        y2: 240,
        dx: second.3 as int,
        dy: second.4 as int,
    }));
    let (c2, o2) = layer_opaque_exec(ppu, second.0, second.1, second.2, second.3, second.4, row, col);
    if c2 {
        return o2;
    }
    let (c1, o1) = layer_opaque_exec(ppu, first.0, first.1, first.2, first.3, first.4, row, col);
    c1 && o1
}

/// Draws sprite `k` over the frame; `bg` holds the background picture.
#[verifier::rlimit(60)]
fn render_sprite(ppu: &Ppu, frame: &mut Frame, k: usize, bg: &Vec<u8>)
    requires
        ppu@.wf(),
        k < 64,
        sprites_ok(ppu@),
        old(frame).data@.len() == FRAME_BYTES,
        bg@.len() == FRAME_BYTES,
        forall|row: int, col: int|
            0 <= row < 240 && 0 <= col < 256 ==> #[trigger] pixel_at(bg@, row, col) == bg_pixel(ppu@, row, col),
    ensures
        final(frame).data@.len() == FRAME_BYTES,
        forall|row: int, col: int|
            0 <= row < 240 && 0 <= col < 256 ==> #[trigger] pixel_at(final(frame).data@, row, col)
                == if sprite_covers(ppu@, k as int, row, col) {
                sprite_shown_rgb(ppu@, k as int, row, col)
            } else {
                pixel_at(old(frame).data@, row, col)
            },
{
    let ghost p = ppu@;
    let ghost pre = frame.data@;
    let i = k * 4;
    let tile_idx = ppu.oam_data[i + 1] as usize;
    let tile_x = ppu.oam_data[i + 3] as usize;
    let tile_y = ppu.oam_data[i] as usize;
    let flip_vertical = ppu.oam_data[i + 2] >> 7u8 & 1 == 1;
    let flip_horizontal = ppu.oam_data[i + 2] >> 6u8 & 1 == 1;
    let pallette_idx = ppu.oam_data[i + 2] & 0b11;
    let attr = ppu.oam_data[i + 2];
    let behind = (attr >> 5u8) & 1 == 1;
    assert(attr & 0b11 <= 3) by (bit_vector);
    let sprite_palette = sprite_palette(ppu, pallette_idx);
    let bank = ppu.ctrl.sprt_pattern_addr() as usize;
    let h = ppu.ctrl.sprite_size() as usize;
    let len = ppu.chr_rom.len();
    let mut y: usize = 0;
    while y < h
        invariant
            0 <= y <= h,
            k < 64,
            p == ppu@,
            p.wf(),
            sprites_ok(p),
            h == sprite_height(p),
            tile_idx == oam_byte(p, k as int, 1),
            bank == spec_sprt_pattern_addr(p.ctrl),
            tile_x == oam_byte(p, k as int, 3),
            tile_y == oam_byte(p, k as int, 0),
            flip_vertical == sprite_flip_vertical(p, k as int),
            flip_horizontal == sprite_flip_horizontal(p, k as int),
            pallette_idx == oam_byte(p, k as int, 2) & 0b11,
            behind == sprite_behind(p, k as int),
            len == p.chr_rom.len(),
            bg@.len() == FRAME_BYTES,
            forall|row: int, col: int|
                0 <= row < 240 && 0 <= col < 256 ==> #[trigger] pixel_at(bg@, row, col) == bg_pixel(p, row, col),
            forall|v: int|
                1 <= v < 4 ==> sprite_palette@[v] == p.palette_table[0x11 + pallette_idx * 4 + v - 1],
            frame.data@.len() == FRAME_BYTES,
            forall|row: int, col: int|
                0 <= row < 240 && 0 <= col < 256 ==> #[trigger] pixel_at(frame.data@, row, col) == if sprite_covers(p, k as int, row, col)
                    && sprite_texel_at(p, k as int, row, col).1 < y {
                    sprite_shown_rgb(p, k as int, row, col)
                } else {
                    pixel_at(pre, row, col)
                },
        decreases h - y,
    {
        let half = y / 8;
        let row_in_tile = y % 8;
        let tile_start = if h == 16 {
            (tile_idx % 2) * 0x1000 + ((tile_idx / 2) * 2 + half) * 16
        } else {
            bank + tile_idx * 16
        };
        assert(tile_start == sprite_tile_start(p, k as int, half as int));
        if tile_start + 15 < len {
            let upper = ppu.chr_rom[tile_start + row_in_tile];
            let lower = ppu.chr_rom[tile_start + row_in_tile + 8];
            let mut x: usize = 8;
            while x > 0
                invariant
                    0 <= x <= 8,
                    y < h,
                    half == y / 8,
                    row_in_tile == y % 8,
                    tile_start == sprite_tile_start(p, k as int, half as int),
                    tile_start + 15 < len,
                    upper == p.chr_rom[tile_start + row_in_tile],
                    lower == p.chr_rom[tile_start + row_in_tile + 8],
                k < 64,
                p == ppu@,
                p.wf(),
                sprites_ok(p),
                h == sprite_height(p),
                tile_idx == oam_byte(p, k as int, 1),
                bank == spec_sprt_pattern_addr(p.ctrl),
                tile_x == oam_byte(p, k as int, 3),
                tile_y == oam_byte(p, k as int, 0),
                flip_vertical == sprite_flip_vertical(p, k as int),
                flip_horizontal == sprite_flip_horizontal(p, k as int),
                pallette_idx == oam_byte(p, k as int, 2) & 0b11,
                behind == sprite_behind(p, k as int),
                len == p.chr_rom.len(),
                bg@.len() == FRAME_BYTES,
                forall|row: int, col: int|
                    0 <= row < 240 && 0 <= col < 256 ==> #[trigger] pixel_at(bg@, row, col) == bg_pixel(p, row, col),
                forall|v: int|
                    1 <= v < 4 ==> sprite_palette@[v] == p.palette_table[0x11 + pallette_idx * 4 + v - 1],
                frame.data@.len() == FRAME_BYTES,
                    forall|row: int, col: int|
                        0 <= row < 240 && 0 <= col < 256 ==> #[trigger] pixel_at(frame.data@, row, col) == if sprite_covers(p, k as int, row, col)
                            && ({
                            let t = sprite_texel_at(p, k as int, row, col);
                            t.1 < y || (t.1 == y && t.0 >= x)
                        }) {
                            sprite_shown_rgb(p, k as int, row, col)
                        } else {
                            pixel_at(pre, row, col)
                        },
                decreases x,
            {
                x = x - 1;
                let value = combine_bits(plane_bit_exec(lower, x), plane_bit_exec(upper, x));
                if value != 0 {
                    proof {
                        assert(tile_value(p.chr_rom, sprite_tile_start(p, k as int, half as int), x as int, row_in_tile as int) == value);
                    }
                    let rgb = system_palette(sprite_palette[value as usize]);
                    let dx = if flip_horizontal { 7 - x } else { x };
                    let dy = if flip_vertical { h - 1 - y } else { y };
                    proof {
                        assert forall|row: int, col: int| 0 <= row < 240 && 0 <= col < 256 implies
                            lands_at((tile_x + dx) as int, (tile_y + dy) as int, row, col)
                            <==> sprite_offset_at(p, k as int, row, col) == Some((dx as int, dy as int)) by {
                            lemma_sprite_lands(tile_x as int, tile_y as int, h as int, dx as int, dy as int, row, col);
                        }
                    }
                    let sx = tile_x + dx;
                    let sy = tile_y + dy;
                    let (row, col) = if sx < 256 {
                        (sy, sx)
                    } else {
                        (sy + 1, sx - 256)
                    };
                    let shown = if behind && row < 240 && bg_opaque_exec(ppu, row, col) {
                        let b = (row * 256 + col) * 3;
                        proof {
                            assert(pixel_at(bg@, row as int, col as int) == bg_pixel(p, row as int, col as int));
                        }
                        (bg[b], bg[b + 1], bg[b + 2])
                    } else {
                        rgb
                    };
                    proof {
                        lemma_set_pixel(frame.data@, sx as int, sy as int, shown);
                        if row < 240 {
                            let (r, c) = (row as int, col as int);
                            assert(lands_at(sx as int, sy as int, r, c));
                            lemma_sprite_lands(tile_x as int, tile_y as int, h as int, dx as int, dy as int, r, c);
                            assert(sprite_offset_at(p, k as int, r, c) == Some((dx as int, dy as int)));
                            assert(sprite_texel(p, k as int, dx as int, dy as int) == (x as int, y as int));
                            assert(sprite_texel_at(p, k as int, r, c) == (x as int, y as int));
                            assert(sprite_value(p, k as int, r, c) == value);
                            assert(rgb == sprite_rgb(p, k as int, r, c));
                            assert(shown == sprite_shown_rgb(p, k as int, r, c));
                        }
                    }
                    frame.set_pixel(sx, sy, shown);
                }
            }
        } else {
            assert forall|row: int, col: int|
                0 <= row < 240 && 0 <= col < 256 && sprite_texel_at(p, k as int, row, col).1 == y implies
                !#[trigger] sprite_covers(p, k as int, row, col) by {}
        }
        y = y + 1;
    }
}

/// Whether every pixel of row `py` of name table `nt` that the pattern data
/// holds has a colour in the system palette.
fn bg_row_colors_ok(ppu: &Ppu, nt: usize, py: usize) -> (r: bool)
    requires
        ppu@.wf(),
        nt == 0 || nt == 0x400,
        py < 240,
    ensures
        r == forall|px: int|
            0 <= px < 256 && #[trigger] bg_has_data(ppu@, nt as int, px, py as int) ==> bg_color_index(
                ppu@,
                nt as int,
                px,
                py as int,
            ) < 64,
{
    let ghost p = ppu@;
    let bank = ppu.ctrl.bknd_pattern_addr() as usize;
    let mut px: usize = 0;
    while px < 256
        invariant
            p == ppu@,
            p.wf(),
            nt == 0 || nt == 0x400,
            py < 240,
            px <= 256,
            bank == spec_bknd_pattern_addr(p.ctrl),
            forall|q: int|
                0 <= q < px && #[trigger] bg_has_data(p, nt as int, q, py as int) ==> bg_color_index(
                    p,
                    nt as int,
                    q,
                    py as int,
                ) < 64,
        decreases 256 - px,
    {
        let tile_idx = ppu.vram[nt + (py / 8) * 32 + px / 8] as usize;
        let start = bank + tile_idx * 16;
        if start + 15 < ppu.chr_rom.len() {
            let y = py % 8;
            let x = px % 8;
            let v = combine_bits(
                plane_bit_exec(ppu.chr_rom[start + y + 8], x),
                plane_bit_exec(ppu.chr_rom[start + y], x),
            );
            let palette = bg_pallette(ppu, nt, px / 8, py / 8);
            let c = if v == 0 {
                palette[0]
            } else {
                palette[v as usize]
            };
            assert(bg_has_data(p, nt as int, px as int, py as int));
            assert(c == bg_color_index(p, nt as int, px as int, py as int));
            if c >= 64 {
                return false;
            }
        } else {
            assert(!bg_has_data(p, nt as int, px as int, py as int));
        }
        px = px + 1;
    }
    true
}

/// Computes `bg_colors_ok` for name table `nt`.
fn bg_colors_check(ppu: &Ppu, nt: usize) -> (r: bool)
    requires
        ppu@.wf(),
        nt == 0 || nt == 0x400,
    ensures
        r == bg_colors_ok(ppu@, nt as int),
{
    let ghost p = ppu@;
    let mut py: usize = 0;
    while py < 240
        invariant
            p == ppu@,
            p.wf(),
            nt == 0 || nt == 0x400,
            py <= 240,
            forall|px: int, q: int|
                0 <= px < 256 && 0 <= q < py && #[trigger] bg_has_data(p, nt as int, px, q)
                    ==> bg_color_index(p, nt as int, px, q) < 64,
        decreases 240 - py,
    {
        if !bg_row_colors_ok(ppu, nt, py) {
            return false;
        }
        py = py + 1;
    }
    true
}

/// Whether every opaque pixel of tile `half` of sprite `k` has a colour in
/// the system palette (true when the pattern data lacks the tile).
fn sprite_tile_colors_check(ppu: &Ppu, k: usize, half: usize) -> (r: bool)
    requires
        ppu@.wf(),
        k < 64,
        half < sprite_height(ppu@) / 8,
    ensures
        r == forall|x: int, y: int|
            0 <= x < 8 && 0 <= y < 8 && sprite_has_data(ppu@, k as int, half as int) && #[trigger] tile_value(
                ppu@.chr_rom,
                sprite_tile_start(ppu@, k as int, half as int),
                x,
                y,
            ) != 0 ==> sprite_color_index(
                ppu@,
                k as int,
                tile_value(ppu@.chr_rom, sprite_tile_start(ppu@, k as int, half as int), x, y),
            ) < 64,
{
    let ghost p = ppu@;
    let i = k * 4;
    let tile_idx = ppu.oam_data[i + 1] as usize;
    let start = if ppu.ctrl.sprite_size() == 16 {
        (tile_idx % 2) * 0x1000 + ((tile_idx / 2) * 2 + half) * 16
    } else {
        ppu.ctrl.sprt_pattern_addr() as usize + tile_idx * 16
    };
    assert(start == sprite_tile_start(p, k as int, half as int));
    if start + 15 >= ppu.chr_rom.len() {
        return true;
    }
    let attr = ppu.oam_data[i + 2];
    let pal = attr & 0b11;
    assert(attr & 0b11 <= 3) by (bit_vector);
    let palette = sprite_palette(ppu, pal);
    let mut y: usize = 0;
    while y < 8
        invariant
            p == ppu@,
            p.wf(),
            k < 64,
            y <= 8,
            start == sprite_tile_start(p, k as int, half as int),
            sprite_has_data(p, k as int, half as int),
            pal == oam_byte(p, k as int, 2) & 0b11,
            forall|v: int| 1 <= v < 4 ==> palette@[v] == p.palette_table[0x11 + pal * 4 + v - 1],
            forall|x: int, q: int|
                0 <= x < 8 && 0 <= q < y && #[trigger] tile_value(p.chr_rom, start as int, x, q) != 0
                    ==> sprite_color_index(p, k as int, tile_value(p.chr_rom, start as int, x, q)) < 64,
        decreases 8 - y,
    {
        let mut x: usize = 0;
        while x < 8
            invariant
                p == ppu@,
                p.wf(),
                k < 64,
                y < 8,
                x <= 8,
                start == sprite_tile_start(p, k as int, half as int),
                sprite_has_data(p, k as int, half as int),
                pal == oam_byte(p, k as int, 2) & 0b11,
                forall|v: int| 1 <= v < 4 ==> palette@[v] == p.palette_table[0x11 + pal * 4 + v - 1],
                forall|xx: int, q: int|
                    0 <= xx < 8 && 0 <= q < y && #[trigger] tile_value(p.chr_rom, start as int, xx, q) != 0
                        ==> sprite_color_index(p, k as int, tile_value(p.chr_rom, start as int, xx, q)) < 64,
                forall|xx: int|
                    0 <= xx < x && #[trigger] tile_value(p.chr_rom, start as int, xx, y as int) != 0
                        ==> sprite_color_index(p, k as int, tile_value(p.chr_rom, start as int, xx, y as int)) < 64,
            decreases 8 - x,
        {
            let v = combine_bits(
                plane_bit_exec(ppu.chr_rom[start + y + 8], x),
                plane_bit_exec(ppu.chr_rom[start + y], x),
            );
            assert(v == tile_value(p.chr_rom, start as int, x as int, y as int));
            if v != 0 {
                let c = palette[v as usize];
                assert(c == sprite_color_index(p, k as int, v as int));
                if c >= 64 {
                    return false;
                }
            }
            x = x + 1;
        }
        y = y + 1;
    }
    true
}

/// Computes `sprites_ok`.
fn sprites_check(ppu: &Ppu) -> (r: bool)
    requires
        ppu@.wf(),
    ensures
        r == sprites_ok(ppu@),
{
    let ghost p = ppu@;
    let halves: usize = if ppu.ctrl.sprite_size() == 16 { 2 } else { 1 };
    let mut k: usize = 0;
    while k < 64
        invariant
            p == ppu@,
            p.wf(),
            k <= 64,
            halves == sprite_height(p) / 8,
            forall|j: int, half: int, x: int, y: int|
                0 <= j < k && 0 <= half < sprite_height(p) / 8 && 0 <= x < 8 && 0 <= y < 8
                    && sprite_has_data(p, j, half)
                    && #[trigger] tile_value(p.chr_rom, sprite_tile_start(p, j, half), x, y) != 0
                    ==> sprite_color_index(p, j, tile_value(p.chr_rom, sprite_tile_start(p, j, half), x, y)) < 64,
        decreases 64 - k,
    {
        let mut half: usize = 0;
        while half < halves
            invariant
                p == ppu@,
                p.wf(),
                k < 64,
                half <= halves,
                halves == sprite_height(p) / 8,
                forall|j: int, hf: int, x: int, y: int|
                    0 <= j < k && 0 <= hf < sprite_height(p) / 8 && 0 <= x < 8 && 0 <= y < 8
                        && sprite_has_data(p, j, hf)
                        && #[trigger] tile_value(p.chr_rom, sprite_tile_start(p, j, hf), x, y) != 0
                        ==> sprite_color_index(p, j, tile_value(p.chr_rom, sprite_tile_start(p, j, hf), x, y)) < 64,
                forall|hf: int, x: int, y: int|
                    0 <= hf < half && 0 <= x < 8 && 0 <= y < 8 && sprite_has_data(p, k as int, hf)
                        && #[trigger] tile_value(p.chr_rom, sprite_tile_start(p, k as int, hf), x, y) != 0
                        ==> sprite_color_index(p, k as int, tile_value(p.chr_rom, sprite_tile_start(p, k as int, hf), x, y)) < 64,
            decreases halves - half,
        {
            if !sprite_tile_colors_check(ppu, k, half) {
                return false;
            }
            half = half + 1;
        }
        k = k + 1;
    }
    true
}

impl Frame {
    /// Whether `render` can draw the PPU's picture: every colour it looks up
    /// is in the system palette, and the vertical scroll fits the name table
    /// layout.
    pub fn can_render(ppu: &Ppu) -> (r: bool)
        requires
            ppu@.wf(),
        ensures
            r == render_ok(ppu@),
    {
        let na = ppu.latched_nametable_addr;
        let horizontal = match ppu.mirroring {
            Mirroring::HORIZONTAL => true,
            Mirroring::VERTICAL => false,
        };
        if horizontal && !(na == 0x2800 || na == 0x2c00) && ppu.scroll.scroll_y > 240 {
            return false;
        }
        if ppu.palette_table[0] >= 64 {
            return false;
        }
        bg_colors_check(ppu, 0) && bg_colors_check(ppu, 0x400) && sprites_check(ppu)
    }

    /// A black frame.
    pub fn new() -> (f: Self)
        ensures
            f.data@ == zeros(FRAME_BYTES as nat),
    {
        Frame { data: zeroed(FRAME_WIDTH * FRAME_HEIGHT * 3) }
    }

    /// Writes the colour of the pixel at (`x`, `y`); a write past the end of
    /// the buffer is dropped.
    pub fn set_pixel(&mut self, x: usize, y: usize, rgb: (u8, u8, u8))
        requires
            y * 3 * 256 + x * 3 + 2 <= usize::MAX,
        ensures
            final(self).data@ == spec_set_pixel(old(self).data@, x as int, y as int, rgb),
    {
        let base = y * 3 * FRAME_WIDTH + x * 3;
        if base + 2 < self.data.len() {
            self.data.set(base, rgb.0);
            self.data.set(base + 1, rgb.1);
            self.data.set(base + 2, rgb.2);
        }
    }

    /// Paints every pixel with `rgb`; bytes past the frame are left alone.
    pub fn clear(&mut self, rgb: (u8, u8, u8))
        requires
            old(self).data@.len() >= FRAME_BYTES,
        ensures
            final(self).data@.len() == old(self).data@.len(),
            forall|row: int, col: int|
                0 <= row < 240 && 0 <= col < 256 ==> #[trigger] pixel_at(final(self).data@, row, col) == rgb,
            forall|j: int| FRAME_BYTES <= j < old(self).data@.len() ==> #[trigger] final(self).data@[j] == old(self).data@[j],
    {
        let ghost start = self.data@;
        let mut i: usize = 0;
        while i < FRAME_WIDTH * FRAME_HEIGHT
            invariant
                i <= FRAME_WIDTH * FRAME_HEIGHT,
                start == old(self).data@,
                start.len() >= FRAME_BYTES,
                self.data@.len() == start.len(),
                forall|j: int| FRAME_BYTES <= j < start.len() ==> #[trigger] self.data@[j] == start[j],
                forall|q: int| 0 <= q < i ==> #[trigger] pixel_q(self.data@, q) == rgb,
            decreases FRAME_WIDTH * FRAME_HEIGHT - i,
        {
            let base = i * 3;
            let ghost before = self.data@;
            self.data.set(base, rgb.0);
            self.data.set(base + 1, rgb.1);
            self.data.set(base + 2, rgb.2);
            assert forall|q: int| 0 <= q < i + 1 implies #[trigger] pixel_q(self.data@, q) == rgb by {
                if q < i {
                    assert(pixel_q(before, q) == rgb);
                }
            }
            i = i + 1;
        }
        assert forall|row: int, col: int| 0 <= row < 240 && 0 <= col < 256 implies #[trigger] pixel_at(
            self.data@,
            row,
            col,
        ) == rgb by {
            let q = row * 256 + col;
            assert(0 <= q < FRAME_WIDTH * FRAME_HEIGHT);
            assert(pixel_q(self.data@, q) == rgb);
        }
    }

    /// Shows tile `tile_n` of pattern table `bank` at the top left corner of
    /// a black frame.
    pub fn show_tile(chr_rom: &Vec<u8>, bank: usize, tile_n: usize) -> (f: Frame)
        requires
            bank <= 1,
            bank * 0x1000 + tile_n * 16 + 15 < chr_rom@.len(),
        ensures
            f.data@.len() == FRAME_BYTES,
            forall|row: int, col: int|
                0 <= row < 240 && 0 <= col < 256 ==> #[trigger] pixel_at(f.data@, row, col) == if row < 8
                    && col < 8 {
                    viewer_color(
                        viewer_tile_value(chr_rom@, bank * 0x1000 + tile_n * 16, col, row),
                    )
                } else {
                    (0u8, 0u8, 0u8)
                },
    {
        let mut frame = Frame::new();
        let len = chr_rom.len();
        let start = bank * 0x1000 + tile_n * 16;
        let ghost blank = frame.data@;
        let mut y: usize = 0;
        while y < 8
            invariant
                0 <= y <= 8,
                start + 15 < chr_rom@.len(),
                len == chr_rom@.len(),
                frame.data@.len() == FRAME_BYTES,
                blank == zeros(FRAME_BYTES as nat),
                forall|row: int, col: int|
                    0 <= row < 240 && 0 <= col < 256 ==> #[trigger] pixel_at(frame.data@, row, col)
                        == if row < y && col < 8 {
                        viewer_color(viewer_tile_value(chr_rom@, start as int, col, row))
                    } else {
                        pixel_at(blank, row, col)
                    },
            decreases 8 - y,
        {
            let upper = chr_rom[start + y];
            let lower = chr_rom[start + y + 8];
            let mut x: usize = 8;
            while x > 0
                invariant
                    0 <= x <= 8,
                    y < 8,
                    start + 15 < chr_rom@.len(),
                    upper == chr_rom@[start + y],
                    lower == chr_rom@[start + y + 8],
                    frame.data@.len() == FRAME_BYTES,
                    forall|row: int, col: int|
                        0 <= row < 240 && 0 <= col < 256 ==> #[trigger] pixel_at(frame.data@, row, col)
                            == if (row < y && col < 8) || (row == y && x <= col < 8) {
                            viewer_color(viewer_tile_value(chr_rom@, start as int, col, row))
                        } else {
                            pixel_at(blank, row, col)
                        },
                decreases x,
            {
                x = x - 1;
                let value = combine_bits(plane_bit_exec(upper, x), plane_bit_exec(lower, x));
                let rgb = viewer_color_exec(value);
                proof {
                    lemma_set_pixel(frame.data@, x as int, y as int, rgb);
                }
                frame.set_pixel(x, y, rgb);
            }
            y = y + 1;
        }
        assert forall|row: int, col: int| 0 <= row < 240 && 0 <= col < 256 implies #[trigger] pixel_at(
            blank,
            row,
            col,
        ) == (0u8, 0u8, 0u8) by {
            let q = row * 256 + col;
            assert(0 <= 3 * q && 3 * q + 2 < FRAME_BYTES);
        }
        frame
    }

    /// Shows the 256 tiles of pattern table `bank` as a 16 by 16 grid in the
    /// top left corner of a black frame, stopping at the first tile the
    /// pattern data does not hold in full.
    #[verifier::rlimit(40)]
    pub fn show_tile_bank(chr_rom: &Vec<u8>, bank: usize) -> (f: Frame)
        requires
            bank <= 1,
        ensures
            f.data@.len() == FRAME_BYTES,
            forall|row: int, col: int|
                0 <= row < 240 && 0 <= col < 256 ==> #[trigger] pixel_at(f.data@, row, col) == if row
                    < 128 && col < 128 && bank_tile_fits(chr_rom@.len() as int, bank as int, (row / 8) * 16
                    + col / 8) {
                    viewer_color(
                        viewer_tile_value(
                            chr_rom@,
                            bank * 0x1000 + ((row / 8) * 16 + col / 8) * 16,
                            col % 8,
                            row % 8,
                        ),
                    )
                } else {
                    (0u8, 0u8, 0u8)
                },
    {
        let mut frame = Frame::new();
        let len = chr_rom.len();
        let bank_offset = bank * 0x1000;
        let ghost blank = frame.data@;
        proof {
            lemma_zeros_black(blank);
        }
        let mut tile_n: usize = 0;
        while tile_n < 256
            invariant
                0 <= tile_n <= 256,
                bank <= 1,
                bank_offset == bank * 0x1000,
                len == chr_rom@.len(),
                frame.data@.len() == FRAME_BYTES,
                forall|m: int| 0 <= m < tile_n ==> bank_tile_fits(len as int, bank as int, m),
                forall|row: int, col: int|
                    0 <= row < 240 && 0 <= col < 256 ==> #[trigger] pixel_at(frame.data@, row, col)
                        == if row < 128 && col < 128 && (row / 8) * 16 + col / 8 < tile_n {
                        viewer_color(
                            viewer_tile_value(
                                chr_rom@,
                                bank * 0x1000 + ((row / 8) * 16 + col / 8) * 16,
                                col % 8,
                                row % 8,
                            ),
                        )
                    } else {
                        (0u8, 0u8, 0u8)
                    },
            ensures
                frame.data@.len() == FRAME_BYTES,
                forall|m: int|
                    0 <= m < 256 ==> (bank_tile_fits(len as int, bank as int, m) <==> m < tile_n),
                forall|row: int, col: int|
                    0 <= row < 240 && 0 <= col < 256 ==> #[trigger] pixel_at(frame.data@, row, col)
                        == if row < 128 && col < 128 && (row / 8) * 16 + col / 8 < tile_n {
                        viewer_color(
                            viewer_tile_value(
                                chr_rom@,
                                bank * 0x1000 + ((row / 8) * 16 + col / 8) * 16,
                                col % 8,
                                row % 8,
                            ),
                        )
                    } else {
                        (0u8, 0u8, 0u8)
                    },
            decreases 256 - tile_n,
        {
            let tile_x = (tile_n % 16) * 8;
            let tile_y = (tile_n / 16) * 8;
            if tile_y >= 240 {
                break;
            }
            let tile_offset = bank_offset + tile_n * 16;
            if tile_offset + 15 >= len {
                break;
            }
            let mut y: usize = 0;
            while y < 8
                invariant
                    0 <= y <= 8,
                    tile_n < 256,
                    tile_x == (tile_n % 16) * 8,
                    tile_y == (tile_n / 16) * 8,
                    tile_offset == bank * 0x1000 + tile_n * 16,
                    tile_offset + 15 < len,
                    len == chr_rom@.len(),
                    frame.data@.len() == FRAME_BYTES,
                    forall|row: int, col: int|
                        0 <= row < 240 && 0 <= col < 256 ==> #[trigger] pixel_at(frame.data@, row, col)
                            == if row < 128 && col < 128 && ((row / 8) * 16 + col / 8 < tile_n || (
                            (row / 8) * 16 + col / 8 == tile_n && row % 8 < y)) {
                            viewer_color(
                                viewer_tile_value(
                                    chr_rom@,
                                    bank * 0x1000 + ((row / 8) * 16 + col / 8) * 16,
                                    col % 8,
                                    row % 8,
                                ),
                            )
                        } else {
                            (0u8, 0u8, 0u8)
                        },
                decreases 8 - y,
            {
                let upper = chr_rom[tile_offset + y];
                let lower = chr_rom[tile_offset + y + 8];
                let mut x: usize = 8;
                while x > 0
                    invariant
                        0 <= x <= 8,
                        y < 8,
                        tile_n < 256,
                        tile_x == (tile_n % 16) * 8,
                        tile_y == (tile_n / 16) * 8,
                        tile_offset == bank * 0x1000 + tile_n * 16,
                        tile_offset + 15 < len,
                        len == chr_rom@.len(),
                        upper == chr_rom@[tile_offset + y],
                        lower == chr_rom@[tile_offset + y + 8],
                        frame.data@.len() == FRAME_BYTES,
                        forall|row: int, col: int|
                            0 <= row < 240 && 0 <= col < 256 ==> #[trigger] pixel_at(frame.data@, row, col)
                                == if row < 128 && col < 128 && ((row / 8) * 16 + col / 8 < tile_n || (
                                (row / 8) * 16 + col / 8 == tile_n && (row % 8 < y || (row % 8 == y
                                && col % 8 >= x)))) {
                                viewer_color(
                                    viewer_tile_value(
                                        chr_rom@,
                                        bank * 0x1000 + ((row / 8) * 16 + col / 8) * 16,
                                        col % 8,
                                        row % 8,
                                    ),
                                )
                            } else {
                                (0u8, 0u8, 0u8)
                            },
                    decreases x,
                {
                    x = x - 1;
                    let value = combine_bits(plane_bit_exec(upper, x), plane_bit_exec(lower, x));
                    let rgb = viewer_color_exec(value);
                    proof {
                        lemma_set_pixel(frame.data@, (tile_x + x) as int, (tile_y + y) as int, rgb);
                        lemma_tile_grid(tile_n as int, x as int, y as int);
                    }
                    frame.set_pixel(tile_x + x, tile_y + y, rgb);
                }
                y = y + 1;
            }
            tile_n = tile_n + 1;
        }
        frame
    }

    /// Renders the PPU's picture: the background colour, the two name tables
    /// the mirroring shows at the latched scroll position, then the sprites,
    /// the lowest-numbered one on top.
    pub fn render(ppu: &Ppu, frame: &mut Frame)
        requires
            ppu@.wf(),
            render_ok(ppu@),
            old(frame).data@.len() == FRAME_BYTES,
        ensures
            final(frame).data@.len() == FRAME_BYTES,
            forall|row: int, col: int|
                0 <= row < 240 && 0 <= col < 256 ==> #[trigger] pixel_at(final(frame).data@, row, col)
                    == render_pixel(ppu@, row, col),
    {
        let ghost p = ppu@;
        let bg_color = system_palette(ppu.palette_table[0]);
        frame.clear(bg_color);
        let scroll_x = ppu.scroll.scroll_x as usize;
        let scroll_y = ppu.scroll.scroll_y as usize;
        let nametable_addr = ppu.latched_nametable_addr;
        let ghost (l1, l2) = bg_layers(p);
        match ppu.mirroring {
            Mirroring::VERTICAL => {
                let (main_nametable, second_nametable) = match nametable_addr {
                    0x2400 | 0x2C00 => (0x400, 0),
                    _ => (0, 0x400),
                };
                render_name_table(
                    ppu,
                    frame,
                    main_nametable,
                    Rect::new(scroll_x, scroll_y, 256, 240),
                    -(scroll_x as isize),
                    -(scroll_y as isize),
                );
                render_name_table(
                    ppu,
                    frame,
                    second_nametable,
                    Rect::new(0, scroll_y, 256, 240),
                    (256 - scroll_x) as isize,
                    -(scroll_y as isize),
                );
            },
            Mirroring::HORIZONTAL => {
                let (nt_top_shift_y, nt_bottom_shift_y) = match nametable_addr {
                    0x2800 | 0x2C00 => (-(240 + scroll_y as isize), -(scroll_y as isize)),
                    _ => (-(scroll_y as isize), (240 - scroll_y) as isize),
                };
                render_name_table(
                    ppu,
                    frame,
                    0,
                    Rect::new(scroll_x, 0, 256, 240),
                    -(scroll_x as isize),
                    nt_top_shift_y,
                );
                render_name_table(
                    ppu,
                    frame,
                    0x400,
                    Rect::new(scroll_x, 0, 256, 240),
                    -(scroll_x as isize),
                    nt_bottom_shift_y,
                );
            },
        }
        assert forall|row: int, col: int| 0 <= row < 240 && 0 <= col < 256 implies #[trigger] pixel_at(
            frame.data@,
            row,
            col,
        ) == bg_pixel(p, row, col) by {}
        let bg = crate::rom_loader::copy_range(frame.data.as_slice(), 0, frame.data.len());
        assert(bg@ =~= frame.data@);
        let mut k: usize = 64;
        while k > 0
            invariant
                0 <= k <= 64,
                p == ppu@,
                p.wf(),
                sprites_ok(p),
                frame.data@.len() == FRAME_BYTES,
                bg@.len() == FRAME_BYTES,
                forall|row: int, col: int|
                    0 <= row < 240 && 0 <= col < 256 ==> #[trigger] pixel_at(bg@, row, col) == bg_pixel(p, row, col),
                forall|row: int, col: int|
                    0 <= row < 240 && 0 <= col < 256 ==> #[trigger] pixel_at(frame.data@, row, col)
                        == match top_sprite(p, row, col, k as int) {
                        Some(j) => sprite_shown_rgb(p, j, row, col),
                        None => bg_pixel(p, row, col),
                    },
            decreases k,
        {
            k = k - 1;
            render_sprite(ppu, frame, k, &bg);
        }
    }
}

} // verus!
