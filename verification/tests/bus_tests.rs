use nesboy::bus::Bus;
use nesboy::joypad::JoypadButton;
use nesboy::rom_loader::RomLoader;

fn rom(prg_banks: u8, vertical: bool) -> RomLoader {
    let mut v = vec![0x4e, 0x45, 0x53, 0x1a, prg_banks, 1, if vertical { 1 } else { 0 }, 0, 0, 0, 0, 0, 0, 0, 0, 0];
    for i in 0..(prg_banks as usize * 16384) {
        v.push((i / 256) as u8 ^ (i % 256) as u8);
    }
    for i in 0..8192usize {
        v.push((i % 256) as u8);
    }
    RomLoader::from_bytes(&v).ok().unwrap()
}

fn prg_byte(i: usize) -> u8 {
    (i / 256) as u8 ^ (i % 256) as u8
}

#[test]
fn new_bus_has_cleared_ram() {
    let bus = Bus::new(rom(1, false));
    assert_eq!(bus.cpu_vram.len(), 0x800);
    assert!(bus.cpu_vram.iter().all(|b| *b == 0));
    assert_eq!(bus.cycles, 0);
    assert_eq!(bus.prg_rom.len(), 16384);
    assert_eq!(bus.ppu.chr_rom.len(), 8192);
}

#[test]
fn ram_is_mirrored_every_2k() {
    let mut bus = Bus::new(rom(1, false));
    bus.write(0x0012, 0xab);
    assert_eq!(bus.read(0x0812), 0xab);
    assert_eq!(bus.read(0x1012), 0xab);
    assert_eq!(bus.read(0x1812), 0xab);
    bus.write(0x1fff, 0x5a);
    assert_eq!(bus.read(0x07ff), 0x5a);
}

#[test]
fn single_prg_bank_is_mirrored() {
    let mut bus = Bus::new(rom(1, false));
    assert_eq!(bus.read(0x8000), prg_byte(0));
    assert_eq!(bus.read(0x8123), prg_byte(0x123));
    assert_eq!(bus.read(0xc123), prg_byte(0x123));
    assert_eq!(bus.read(0xffff), prg_byte(0x3fff));
}

#[test]
fn two_prg_banks_are_not_mirrored() {
    let mut bus = Bus::new(rom(2, false));
    assert_eq!(bus.read(0xc123), prg_byte(0x4123));
    assert_eq!(bus.read_u16(0xfffe), ((prg_byte(0x7fff) as u16) << 8) | prg_byte(0x7ffe) as u16);
}

#[test]
fn writes_to_rom_are_ignored() {
    let mut bus = Bus::new(rom(1, false));
    let before = bus.read(0x9000);
    bus.write(0x9000, before.wrapping_add(1));
    assert_eq!(bus.read(0x9000), before);
}

#[test]
fn read_u16_is_little_endian() {
    let mut bus = Bus::new(rom(1, false));
    bus.write(0x0010, 0x34);
    bus.write(0x0011, 0x12);
    assert_eq!(bus.read_u16(0x0010), 0x1234);
}

#[test]
fn ppu_registers_are_mirrored_every_8_bytes() {
    let mut bus = Bus::new(rom(1, false));
    // PPUADDR through a mirror at $3FFE, PPUDATA through $2017
    bus.write(0x3ffe, 0x21);
    bus.write(0x200e, 0x00);
    bus.write(0x2017, 0x77);
    assert_eq!(bus.ppu.vram[0x100], 0x77);
    bus.write(0x2006, 0x21);
    bus.write(0x2006, 0x00);
    bus.read(0x2007);
    assert_eq!(bus.read(0x3fff), 0x77);
}

#[test]
fn status_read_through_bus_clears_vblank() {
    let mut bus = Bus::new(rom(1, false));
    bus.ppu.status.bits = 0x80;
    assert_eq!(bus.read(0x200a), 0x80);
    assert_eq!(bus.read(0x2002), 0x00);
}

#[test]
fn unmapped_reads_give_zero() {
    let mut bus = Bus::new(rom(1, false));
    assert_eq!(bus.read(0x2000), 0);
    assert_eq!(bus.read(0x4000), 0);
    assert_eq!(bus.read(0x4017), 0);
    assert_eq!(bus.read(0x6000), 0);
}

#[test]
fn oam_dma_copies_a_page() {
    let mut bus = Bus::new(rom(1, false));
    for i in 0..256u16 {
        bus.write(0x0200 + i, i as u8 ^ 0x5a);
    }
    bus.write(0x4014, 0x02);
    for i in 0..256usize {
        assert_eq!(bus.ppu.oam_data[i], i as u8 ^ 0x5a);
    }
    bus.write(0x4014, 0x81);
    assert_eq!(bus.ppu.oam_data[3], prg_byte(0x103));
    bus.write(0x4014, 0x40);
    assert_eq!(bus.ppu.oam_data[7], 0);
}

#[test]
fn controller_is_read_through_4016() {
    let mut bus = Bus::new(rom(1, false));
    bus.joypad1.set_button_pressed_status(JoypadButton::BUTTON_B, true);
    bus.write(0x4016, 1);
    bus.write(0x4016, 0);
    assert_eq!(bus.read(0x4016), 0);
    assert_eq!(bus.read(0x4016), 1);
    assert_eq!(bus.read(0x4016), 0);
}

#[test]
fn tick_counts_cycles_and_reports_frames() {
    let mut bus = Bus::new(rom(1, false));
    let mut frames = 0;
    let mut steps = 0;
    while frames == 0 {
        if bus.tick(7) {
            frames += 1;
        }
        steps += 1;
    }
    assert_eq!(bus.cycles, steps * 7);
    // a frame is 262 scanlines of 341 PPU cycles, three per CPU cycle
    assert!(steps * 21 >= 262 * 341);
    assert!((steps - 1) * 21 < 262 * 341);
}

#[test]
fn nmi_is_polled_once() {
    let mut bus = Bus::new(rom(1, false));
    bus.write(0x2000, 0x80);
    assert!(bus.poll_nmi_status().is_none());
    while bus.ppu.scanline != 241 {
        bus.tick(50);
    }
    assert!(bus.poll_nmi_status().is_some());
    assert!(bus.poll_nmi_status().is_none());
}

#[test]
fn faulting_accesses_are_reported() {
    let mut bus = Bus::new(rom(1, false));
    // a cartridge with less pattern data than the 8KB pattern space
    bus.ppu.chr_rom.truncate(0x100);
    bus.write(0x2006, 0x01);
    bus.write(0x2006, 0x20);
    assert!(bus.read_faults(0x2007));
    assert!(bus.read_faults(0x3fff));
    assert!(!bus.read_faults(0x2006));
    let r = bus.try_read(0x2007);
    assert_eq!(r.err().map(|e| e.addr), Some(0x0120));
    // writes to pattern data are ignored, not refused
    assert!(bus.try_write(0x200f, 1).is_ok());
    assert_eq!(bus.try_read(0x0000).ok(), Some(0));
    assert!(bus.try_write(0x0000, 9).is_ok());
    assert_eq!(bus.read(0x0000), 9);
}

#[test]
fn a_cartridge_without_prg_rom_faults_on_cartridge_reads() {
    let image = vec![0x4e, 0x45, 0x53, 0x1a, 0, 1, 0, 0, 0, 0, 0, 0, 0, 0, 0, 0]
        .into_iter()
        .chain(std::iter::repeat(0).take(8192))
        .collect::<Vec<u8>>();
    let mut bus = Bus::new(RomLoader::from_bytes(&image).ok().unwrap());
    assert!(bus.prg_rom.is_empty());
    assert!(bus.read_faults(0x8000));
    assert!(bus.read_faults(0xfffc));
    assert!(!bus.read_faults(0x7fff));
    assert_eq!(bus.try_read(0xc123).err().map(|e| e.addr), Some(0xc123));
    // DMA from RAM still works, DMA from cartridge space does not
    bus.write(0x0300, 5);
    assert!(bus.try_write(0x4014, 0x03).is_ok());
    assert_eq!(bus.ppu.oam_data[0], 5);
    assert_eq!(bus.try_write(0x4014, 0x90).err().map(|e| e.addr), Some(0x9000));
}
