use nesboy::frame::Frame;
use nesboy::palette::system_palette;
use nesboy::ppu::Ppu;

fn pixel(f: &Frame, x: usize, y: usize) -> (u8, u8, u8) {
    let b = (y * 256 + x) * 3;
    (f.data[b], f.data[b + 1], f.data[b + 2])
}

#[test]
fn palette_entries() {
    assert_eq!(system_palette(0x00), (0x80, 0x80, 0x80));
    assert_eq!(system_palette(0x01), (0x00, 0x3d, 0xa6));
    assert_eq!(system_palette(0x16), (0xff, 0x22, 0x00));
    assert_eq!(system_palette(0x23), (0xd4, 0x80, 0xff));
    assert_eq!(system_palette(0x27), (0xff, 0x9c, 0x12));
    assert_eq!(system_palette(0x30), (0xff, 0xff, 0xff));
    assert_eq!(system_palette(0x3f), (0x11, 0x11, 0x11));
}

#[test]
fn new_frame_is_black() {
    let f = Frame::new();
    assert_eq!(f.data.len(), 256 * 240 * 3);
    assert!(f.data.iter().all(|b| *b == 0));
}

#[test]
fn set_pixel_writes_three_bytes() {
    let mut f = Frame::new();
    f.set_pixel(3, 2, (1, 2, 3));
    assert_eq!(pixel(&f, 3, 2), (1, 2, 3));
    assert_eq!(&f.data[(2 * 256 + 3) * 3..(2 * 256 + 3) * 3 + 3], &[1, 2, 3]);
    assert_eq!(pixel(&f, 4, 2), (0, 0, 0));
    // a column past the right edge lands on the next row
    f.set_pixel(256, 0, (9, 9, 9));
    assert_eq!(pixel(&f, 0, 1), (9, 9, 9));
    // a write past the end of the buffer is dropped
    let before = f.data.clone();
    f.set_pixel(0, 240, (7, 7, 7));
    assert_eq!(f.data, before);
}

#[test]
fn clear_paints_every_pixel() {
    let mut f = Frame::new();
    f.clear((4, 5, 6));
    for y in [0, 100, 239] {
        for x in [0, 17, 255] {
            assert_eq!(pixel(&f, x, y), (4, 5, 6));
        }
    }
}

fn chr_with_tile_1(upper0: u8, lower0: u8) -> Vec<u8> {
    let mut chr = vec![0u8; 0x2000];
    chr[16] = upper0;
    chr[16 + 8] = lower0;
    chr
}

#[test]
fn show_tile_draws_at_the_corner() {
    let chr = chr_with_tile_1(0b1000_0001, 0b1000_0000);
    let f = Frame::show_tile(&chr, 0, 1);
    assert_eq!(pixel(&f, 0, 0), system_palette(0x30));
    assert_eq!(pixel(&f, 7, 0), system_palette(0x27));
    assert_eq!(pixel(&f, 1, 0), system_palette(0x01));
    assert_eq!(pixel(&f, 3, 5), system_palette(0x01));
    assert_eq!(pixel(&f, 8, 0), (0, 0, 0));
    assert_eq!(pixel(&f, 0, 8), (0, 0, 0));
}

#[test]
fn show_tile_low_plane_alone() {
    let chr = chr_with_tile_1(0, 0b0100_0000);
    let f = Frame::show_tile(&chr, 0, 1);
    assert_eq!(pixel(&f, 1, 0), system_palette(0x23));
}

#[test]
fn show_tile_bank_lays_out_16_per_row() {
    let mut chr = vec![0u8; 0x2000];
    // tile 17 of bank 1: top-left pixel set in the high plane
    chr[0x1000 + 17 * 16] = 0b1000_0000;
    let f = Frame::show_tile_bank(&chr, 1);
    assert_eq!(pixel(&f, 8, 8), system_palette(0x27));
    assert_eq!(pixel(&f, 9, 8), system_palette(0x01));
    assert_eq!(pixel(&f, 127, 127), system_palette(0x01));
    assert_eq!(pixel(&f, 128, 0), (0, 0, 0));
    assert_eq!(pixel(&f, 0, 128), (0, 0, 0));
}

#[test]
fn show_tile_bank_stops_at_the_end_of_the_data() {
    let chr = vec![0u8; 16 * 3];
    let f = Frame::show_tile_bank(&chr, 0);
    assert_eq!(pixel(&f, 16, 0), system_palette(0x01));
    assert_eq!(pixel(&f, 24, 0), (0, 0, 0));
}

fn scene(vertical: bool) -> Ppu {
    let mut ppu = Ppu::new(vertical, chr_with_tile_1(0b1000_0000, 0));
    ppu.palette_table[0] = 0x0f;
    ppu.palette_table[1] = 0x16;
    ppu.palette_table[0x11] = 0x21;
    ppu.palette_table[0x15] = 0x2a;
    ppu.vram[0] = 1;
    ppu
}

#[test]
fn render_draws_background_tiles() {
    let ppu = scene(false);
    let mut f = Frame::new();
    Frame::render(&ppu, &mut f);
    assert_eq!(pixel(&f, 0, 0), system_palette(0x16));
    assert_eq!(pixel(&f, 1, 0), system_palette(0x0f));
    assert_eq!(pixel(&f, 8, 0), system_palette(0x0f));
    assert_eq!(pixel(&f, 255, 239), system_palette(0x0f));
}

#[test]
fn render_draws_sprites_over_background() {
    let mut ppu = scene(true);
    // sprite 0: y, tile, attributes (palette 1), x
    ppu.oam_data[0] = 16;
    ppu.oam_data[1] = 1;
    ppu.oam_data[2] = 0b01;
    ppu.oam_data[3] = 24;
    // sprite 1: flipped horizontally
    ppu.oam_data[4] = 16;
    ppu.oam_data[5] = 1;
    ppu.oam_data[6] = 0x40;
    ppu.oam_data[7] = 40;
    // sprite 2 under sprite 0
    ppu.oam_data[8] = 16;
    ppu.oam_data[9] = 1;
    ppu.oam_data[10] = 0;
    ppu.oam_data[11] = 24;
    let mut f = Frame::new();
    Frame::render(&ppu, &mut f);
    assert_eq!(pixel(&f, 24, 16), system_palette(0x2a));
    assert_eq!(pixel(&f, 25, 16), system_palette(0x0f));
    assert_eq!(pixel(&f, 47, 16), system_palette(0x21));
    assert_eq!(pixel(&f, 40, 16), system_palette(0x0f));
    assert_eq!(pixel(&f, 0, 0), system_palette(0x16));
}

#[test]
fn render_follows_the_latched_scroll() {
    let mut ppu = scene(true);
    ppu.vram[0] = 0;
    ppu.vram[1] = 1; // tile at column 8
    ppu.vram[0x400] = 1; // first tile of the second name table
    ppu.scroll.scroll_x = 8;
    let mut f = Frame::new();
    Frame::render(&ppu, &mut f);
    assert_eq!(pixel(&f, 0, 0), system_palette(0x16));
    assert_eq!(pixel(&f, 248, 0), system_palette(0x16));
    assert_eq!(pixel(&f, 8, 0), system_palette(0x0f));
}

#[test]
fn render_with_second_name_table_selected() {
    let mut ppu = scene(true);
    ppu.latched_nametable_addr = 0x2400;
    let mut f = Frame::new();
    Frame::render(&ppu, &mut f);
    // name table 0 is now the right-hand one and lies off screen
    assert_eq!(pixel(&f, 0, 0), system_palette(0x0f));
    ppu.vram[0x400] = 1;
    Frame::render(&ppu, &mut f);
    assert_eq!(pixel(&f, 0, 0), system_palette(0x16));
}

#[test]
fn can_render_checks_the_colours_used() {
    let mut ppu = scene(false);
    assert!(Frame::can_render(&ppu));
    // an unused palette entry outside the system palette does no harm
    ppu.palette_table[0x1f] = 0x80;
    assert!(Frame::can_render(&ppu));
    // the universal background colour is always used
    ppu.palette_table[0] = 64;
    assert!(!Frame::can_render(&ppu));
    ppu.palette_table[0] = 0x0f;
    // colour 1 of background palette 0 is used by tile 1
    ppu.palette_table[1] = 0xff;
    assert!(!Frame::can_render(&ppu));
    ppu.palette_table[1] = 0x16;
    // a sprite showing tile 1 with palette 3 uses entry $1D
    ppu.oam_data[1] = 1;
    ppu.oam_data[2] = 3;
    assert!(Frame::can_render(&ppu));
    ppu.palette_table[0x1d] = 0x40;
    assert!(!Frame::can_render(&ppu));
}

#[test]
fn can_render_checks_the_vertical_scroll() {
    let mut ppu = scene(false);
    ppu.scroll.scroll_y = 240;
    assert!(Frame::can_render(&ppu));
    ppu.scroll.scroll_y = 241;
    assert!(!Frame::can_render(&ppu));
    ppu.latched_nametable_addr = 0x2800;
    assert!(Frame::can_render(&ppu));
    let mut v = scene(true);
    v.scroll.scroll_y = 250;
    assert!(Frame::can_render(&v));
}

#[test]
fn sprites_behind_the_background_yield_to_opaque_pixels() {
    let mut ppu = scene(false);
    // background tile 1 at the top-left tile: pixel (0, 0) is opaque, (1, 0) is not
    // sprite 0: behind the background (bit 5), palette 1, at (0, 0)
    ppu.oam_data[0] = 0;
    ppu.oam_data[1] = 1;
    ppu.oam_data[2] = 0b0010_0001;
    ppu.oam_data[3] = 0;
    // sprite 1: in front, palette 0, one pixel to the right
    ppu.oam_data[4] = 0;
    ppu.oam_data[5] = 1;
    ppu.oam_data[6] = 0;
    ppu.oam_data[7] = 1;
    let mut f = Frame::new();
    Frame::render(&ppu, &mut f);
    // the opaque background pixel hides the behind-background sprite
    assert_eq!(pixel(&f, 0, 0), system_palette(0x16));
    // the front sprite covers a transparent background pixel
    assert_eq!(pixel(&f, 1, 0), system_palette(0x21));
    // move sprite 0 onto a transparent background pixel: it shows
    ppu.oam_data[3] = 16;
    Frame::render(&ppu, &mut f);
    assert_eq!(pixel(&f, 16, 0), system_palette(0x2a));
    // sprite 0 behind an opaque pixel still hides sprite 1 there
    ppu.oam_data[3] = 0;
    ppu.oam_data[7] = 0;
    Frame::render(&ppu, &mut f);
    assert_eq!(pixel(&f, 0, 0), system_palette(0x16));
}

#[test]
fn clear_leaves_bytes_past_the_frame() {
    let mut f = Frame::new();
    f.data.extend([7u8, 8, 9]);
    f.clear((1, 2, 3));
    assert_eq!(pixel(&f, 255, 239), (1, 2, 3));
    assert_eq!(&f.data[256 * 240 * 3..], &[7, 8, 9]);
}

#[test]
fn tall_sprites_show_two_tiles() {
    let mut ppu = scene(false);
    // tall sprites: tile byte 3 selects pattern table $1000, tiles 2 and 3
    ppu.write_control(0x20);
    ppu.chr_rom[0x1000 + 2 * 16] = 0b1000_0000; // top tile, row 0, column 0
    ppu.chr_rom[0x1000 + 3 * 16 + 7] = 0b0000_0001; // bottom tile, row 7, column 7
    ppu.oam_data[0] = 20;
    ppu.oam_data[1] = 3;
    ppu.oam_data[2] = 0b01;
    ppu.oam_data[3] = 40;
    let mut f = Frame::new();
    assert!(Frame::can_render(&ppu));
    Frame::render(&ppu, &mut f);
    assert_eq!(pixel(&f, 40, 20), system_palette(0x2a));
    assert_eq!(pixel(&f, 47, 35), system_palette(0x2a));
    assert_eq!(pixel(&f, 41, 20), system_palette(0x0f));
    // flipped vertically, the bottom tile's last row comes first
    ppu.oam_data[2] = 0b1000_0001;
    Frame::render(&ppu, &mut f);
    assert_eq!(pixel(&f, 40, 35), system_palette(0x2a));
    assert_eq!(pixel(&f, 47, 20), system_palette(0x2a));
    assert_eq!(pixel(&f, 40, 20), system_palette(0x0f));
    // a colour outside the system palette in the bottom tile is caught
    ppu.palette_table[0x15] = 0x70;
    assert!(!Frame::can_render(&ppu));
}
