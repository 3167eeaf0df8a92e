use nesboy::ppu::{Mirroring, Ppu};

fn chr() -> Vec<u8> {
    (0..0x2000usize).map(|i| (i % 256) as u8).collect()
}

fn set_addr(ppu: &mut Ppu, addr: u16) {
    ppu.write_to_ppu_addr((addr >> 8) as u8);
    ppu.write_to_ppu_addr((addr & 0xff) as u8);
}

/// Advances the PPU by whole scanlines.
fn lines(ppu: &mut Ppu, n: usize) -> bool {
    let mut frame = false;
    for _ in 0..n {
        frame |= ppu.tick(200);
        frame |= ppu.tick(141);
    }
    frame
}

#[test]
fn new_ppu_is_blank() {
    let ppu = Ppu::new(true, chr());
    assert_eq!(ppu.mirroring, Mirroring::VERTICAL);
    assert_eq!(ppu.vram.len(), 0x4000);
    assert_eq!(ppu.palette_table.len(), 64);
    assert_eq!(ppu.oam_data.len(), 256);
    assert_eq!(ppu.get_frame().len(), 256 * 240);
    assert_eq!(ppu.scanline, 0);
    assert!(ppu.nmi_interrupt.is_none());
    assert!(!ppu.is_frame_complete());
    let h = Ppu::new(false, vec![]);
    assert_eq!(h.mirroring, Mirroring::HORIZONTAL);
}

#[test]
fn horizontal_mirroring_maps_name_tables() {
    let ppu = Ppu::new(false, vec![]);
    assert_eq!(ppu.mirror_vram_addr(0x2000), 0x000);
    assert_eq!(ppu.mirror_vram_addr(0x2405), 0x005);
    assert_eq!(ppu.mirror_vram_addr(0x2805), 0x405);
    assert_eq!(ppu.mirror_vram_addr(0x2c05), 0x405);
    assert_eq!(ppu.mirror_vram_addr(0x3405), 0x005);
}

#[test]
fn vertical_mirroring_maps_name_tables() {
    let ppu = Ppu::new(true, vec![]);
    assert_eq!(ppu.mirror_vram_addr(0x2005), 0x005);
    assert_eq!(ppu.mirror_vram_addr(0x2405), 0x405);
    assert_eq!(ppu.mirror_vram_addr(0x2805), 0x005);
    assert_eq!(ppu.mirror_vram_addr(0x2c05), 0x405);
}

#[test]
fn vram_reads_go_through_the_buffer() {
    let mut ppu = Ppu::new(false, chr());
    set_addr(&mut ppu, 0x2305);
    ppu.write_to_data(0x66);
    ppu.write_to_data(0x77);
    set_addr(&mut ppu, 0x2305);
    assert_eq!(ppu.read_data(), 0);
    assert_eq!(ppu.read_data(), 0x66);
    assert_eq!(ppu.read_data(), 0x77);
}

#[test]
fn vram_write_through_mirror_reads_back() {
    let mut ppu = Ppu::new(false, chr());
    set_addr(&mut ppu, 0x2405);
    ppu.write_to_data(0x42);
    set_addr(&mut ppu, 0x2005);
    ppu.read_data();
    assert_eq!(ppu.read_data(), 0x42);
}

#[test]
fn pattern_data_reads_buffered_and_is_read_only() {
    let mut ppu = Ppu::new(false, chr());
    set_addr(&mut ppu, 0x0010);
    ppu.write_to_data(0xff);
    set_addr(&mut ppu, 0x0010);
    assert_eq!(ppu.read_data(), 0);
    assert_eq!(ppu.read_data(), 0x10);
    assert_eq!(ppu.chr_rom[0x10], 0x10);
}

#[test]
fn vram_increment_of_32() {
    let mut ppu = Ppu::new(false, chr());
    ppu.write_control(0b0000_0100);
    set_addr(&mut ppu, 0x2000);
    ppu.write_to_data(1);
    ppu.write_to_data(2);
    assert_eq!(ppu.vram[0], 1);
    assert_eq!(ppu.vram[32], 2);
}

#[test]
fn palette_reads_are_direct_and_mirrored() {
    let mut ppu = Ppu::new(false, chr());
    set_addr(&mut ppu, 0x3f10);
    ppu.write_to_data(0x2a);
    assert_eq!(ppu.palette_table[0], 0x2a);
    set_addr(&mut ppu, 0x3f00);
    assert_eq!(ppu.read_data(), 0x2a);
    set_addr(&mut ppu, 0x3f10);
    assert_eq!(ppu.read_data(), 0x2a);
    set_addr(&mut ppu, 0x3f05);
    ppu.write_to_data(0x11);
    set_addr(&mut ppu, 0x3f05);
    assert_eq!(ppu.read_data(), 0x11);
    // palette RAM repeats every 32 bytes up to $3FFF
    set_addr(&mut ppu, 0x3fe5);
    assert_eq!(ppu.read_data(), 0x11);
    set_addr(&mut ppu, 0x3ffc);
    ppu.write_to_data(0x07);
    assert_eq!(ppu.palette_table[0x0c], 0x07);
}

#[test]
fn faulting_addresses_are_reported() {
    let mut ppu = Ppu::new(false, vec![0; 16]);
    set_addr(&mut ppu, 0x0020);
    assert!(ppu.read_data_faults());
    set_addr(&mut ppu, 0x000f);
    assert!(!ppu.read_data_faults());
    set_addr(&mut ppu, 0x3000);
    assert!(!ppu.read_data_faults());
    set_addr(&mut ppu, 0x3f40);
    assert!(!ppu.read_data_faults());
    set_addr(&mut ppu, 0x2000);
    assert!(!ppu.read_data_faults());
}

#[test]
fn upper_name_table_region_mirrors_the_lower() {
    let mut ppu = Ppu::new(true, chr());
    set_addr(&mut ppu, 0x3405);
    ppu.write_to_data(0x5c);
    assert_eq!(ppu.vram[0x405], 0x5c);
    set_addr(&mut ppu, 0x2405);
    ppu.read_data();
    assert_eq!(ppu.read_data(), 0x5c);
    set_addr(&mut ppu, 0x3c05);
    ppu.read_data();
    assert_eq!(ppu.read_data(), 0x5c);
}

#[test]
fn vblank_starts_at_scanline_241() {
    let mut ppu = Ppu::new(false, chr());
    assert!(!lines(&mut ppu, 240));
    assert_eq!(ppu.status.bits & 0x80, 0);
    assert!(!lines(&mut ppu, 1));
    assert_eq!(ppu.scanline, 241);
    assert_eq!(ppu.status.bits & 0x80, 0x80);
    assert!(ppu.nmi_interrupt.is_none());
    assert_eq!(ppu.read_status() & 0x80, 0x80);
    assert_eq!(ppu.read_status() & 0x80, 0);
}

#[test]
fn vblank_raises_nmi_when_enabled() {
    let mut ppu = Ppu::new(false, chr());
    ppu.write_control(0x80);
    lines(&mut ppu, 241);
    assert_eq!(ppu.nmi_interrupt, Some(1));
}

#[test]
fn enabling_nmi_in_vblank_raises_it() {
    let mut ppu = Ppu::new(false, chr());
    lines(&mut ppu, 241);
    assert!(ppu.nmi_interrupt.is_none());
    ppu.write_control(0x80);
    assert_eq!(ppu.nmi_interrupt, Some(1));
}

#[test]
fn frame_ends_after_262_scanlines() {
    let mut ppu = Ppu::new(false, chr());
    ppu.write_control(0x80);
    assert!(!lines(&mut ppu, 261));
    assert_eq!(ppu.scanline, 261);
    assert!(lines(&mut ppu, 1));
    assert_eq!(ppu.scanline, 0);
    assert!(ppu.nmi_interrupt.is_none());
    assert_eq!(ppu.status.bits & 0xc0, 0);
}

#[test]
fn tick_keeps_the_remainder_of_cycles() {
    let mut ppu = Ppu::new(false, chr());
    assert!(!ppu.tick(255));
    assert!(!ppu.tick(90));
    assert_eq!(ppu.scanline, 1);
    assert_eq!(ppu.cycles, 4);
}

#[test]
fn scroll_and_name_table_latch_at_vblank() {
    let mut ppu = Ppu::new(true, chr());
    ppu.write_scroll(5);
    ppu.write_scroll(7);
    ppu.write_control(0x01);
    assert_eq!((ppu.scroll.scroll_x, ppu.scroll.scroll_y), (0, 0));
    lines(&mut ppu, 241);
    assert_eq!((ppu.scroll.scroll_x, ppu.scroll.scroll_y), (5, 7));
    assert_eq!(ppu.latched_nametable_addr, 0x2400);
}

#[test]
fn status_read_resets_only_the_address_latch() {
    let mut ppu = Ppu::new(false, chr());
    ppu.write_scroll(3);
    ppu.write_to_ppu_addr(0x21);
    ppu.read_status();
    // the scroll toggle is left as it was: the next write is the vertical value
    ppu.write_scroll(9);
    assert_eq!(ppu.scroll.temp_x, 3);
    assert_eq!(ppu.scroll.temp_y, 9);
    // the address toggle was reset: the next write is the high byte
    set_addr(&mut ppu, 0x2345);
    ppu.write_to_data(0x99);
    assert_eq!(ppu.vram[0x345], 0x99);
}

#[test]
fn oam_data_advances_and_wraps() {
    let mut ppu = Ppu::new(false, chr());
    ppu.write_oam_addr(0xfe);
    ppu.write_oam_data(1);
    ppu.write_oam_data(2);
    ppu.write_oam_data(3);
    assert_eq!(ppu.oam_data[0xfe], 1);
    assert_eq!(ppu.oam_data[0xff], 2);
    assert_eq!(ppu.oam_data[0], 3);
    assert_eq!(ppu.oam_addr, 1);
    ppu.write_oam_addr(0xff);
    assert_eq!(ppu.read_oam_data(), 2);
}

#[test]
fn mask_and_frame_complete_flags() {
    let mut ppu = Ppu::new(false, chr());
    ppu.write_mask(0x1e);
    assert_eq!(ppu.mask, 0x1e);
    ppu.frame_complete = true;
    assert!(ppu.is_frame_complete());
    ppu.reset_frame_complete();
    assert!(!ppu.is_frame_complete());
}

#[test]
fn render_tile_writes_one_tile_row() {
    let mut ppu = Ppu::new(false, chr());
    ppu.tile_lsb = 0b1010_0000;
    ppu.tile_msb = 0b1100_0001;
    ppu.scanline = 2;
    ppu.cycles = 9; // second tile: columns 8-15
    ppu.render_tile();
    let f = ppu.get_frame();
    let row = &f[2 * 256 + 8..2 * 256 + 16];
    assert_eq!(row, &[3, 2, 1, 0, 0, 0, 0, 2]);
    assert_eq!(f[2 * 256 + 7], 0);
    assert_eq!(f[2 * 256 + 16], 0);
}

#[test]
fn sprite_zero_hit_is_raised_on_its_scanline() {
    let mut ppu = Ppu::new(false, chr());
    ppu.oam_data[0] = 2;
    ppu.oam_data[3] = 100;
    // sprites hidden: no hit
    lines(&mut ppu, 3);
    assert_eq!(ppu.status.bits & 0x40, 0);
    let mut ppu = Ppu::new(false, chr());
    ppu.oam_data[0] = 2;
    ppu.oam_data[3] = 100;
    ppu.write_mask(0x10);
    lines(&mut ppu, 2);
    assert_eq!(ppu.scanline, 2);
    ppu.tick(50);
    ppu.tick(100);
    // past sprite 0's column, but the scanline has not ended
    assert_eq!(ppu.status.bits & 0x40, 0);
    ppu.tick(191);
    assert_eq!(ppu.scanline, 3);
    assert_eq!(ppu.status.bits & 0x40, 0x40);
    lines(&mut ppu, 99);
    assert_eq!(ppu.status.bits & 0x40, 0x40);
    // cleared when vertical blank starts
    lines(&mut ppu, 139);
    assert_eq!(ppu.scanline, 241);
    assert_eq!(ppu.status.bits & 0x40, 0);
}

#[test]
fn cartridges_without_chr_rom_get_chr_ram() {
    let mut ppu = Ppu::new(false, vec![]);
    assert!(ppu.chr_ram);
    assert_eq!(ppu.chr_rom.len(), 0x2000);
    set_addr(&mut ppu, 0x0123);
    ppu.write_to_data(0x77);
    assert_eq!(ppu.chr_rom[0x123], 0x77);
    set_addr(&mut ppu, 0x0123);
    assert!(!ppu.read_data_faults());
    ppu.read_data();
    assert_eq!(ppu.read_data(), 0x77);
    // CHR ROM stays read-only
    let mut rom = Ppu::new(false, chr());
    assert!(!rom.chr_ram);
    set_addr(&mut rom, 0x0123);
    rom.write_to_data(0x77);
    assert_eq!(rom.chr_rom[0x123], 0x23);
}

#[test]
fn one_frame_per_262_scanlines_of_ticks() {
    let mut ppu = Ppu::new(false, chr());
    for i in 0..2881 {
        assert!(!ppu.tick(31));
        // register calls in between do not move the PPU in its frame
        if i % 7 == 0 {
            ppu.read_status();
            ppu.write_scroll(i as u8);
            ppu.write_oam_data(1);
        }
    }
    assert!(ppu.tick(31));
    assert_eq!((ppu.scanline, ppu.cycles), (0, 0));
}
