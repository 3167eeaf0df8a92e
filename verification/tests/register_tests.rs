use nesboy::add_register::AddrRegister;
use nesboy::controller_register::ControlRegister;
use nesboy::joypad::{Joypad, JoypadButton};
use nesboy::scroll::ScrollRegister;
use nesboy::status::{set_bits, StatusRegister};

#[test]
fn addr_register_takes_high_byte_first() {
    let mut a = AddrRegister::new();
    a.update(0x21);
    a.update(0x08);
    assert_eq!(a.get(), 0x2108);
    assert!(a.hi_ptr);
}

#[test]
fn addr_register_mirrors_down() {
    let mut a = AddrRegister::new();
    a.update(0x7f);
    a.update(0x10);
    assert_eq!(a.get(), 0x3f10);
    let mut b = AddrRegister::new();
    b.update(0x40);
    b.update(0x00);
    assert_eq!(b.get(), 0x0000);
}

#[test]
fn addr_register_increment_carries_and_wraps() {
    let mut a = AddrRegister::new();
    a.update(0x20);
    a.update(0xff);
    a.increment(1);
    assert_eq!(a.get(), 0x2100);
    a.increment(32);
    assert_eq!(a.get(), 0x2120);
    let mut b = AddrRegister::new();
    b.update(0x3f);
    b.update(0xf0);
    b.increment(32);
    assert_eq!(b.get(), 0x0010);
}

#[test]
fn addr_register_reset_latch() {
    let mut a = AddrRegister::new();
    a.update(0x12);
    assert!(!a.hi_ptr);
    a.reset_latch();
    a.update(0x23);
    a.update(0x45);
    assert_eq!(a.get(), 0x2345);
}

#[test]
fn control_register_fields() {
    let mut c = ControlRegister::new();
    assert_eq!(c.vram_addr_increment(), 1);
    assert_eq!(c.nametable_addr(), 0x2000);
    assert!(!c.generate_vblank_nmi());
    assert_eq!(c.sprite_size(), 8);
    c.update(0b1011_1111);
    assert_eq!(c.vram_addr_increment(), 32);
    assert_eq!(c.nametable_addr(), 0x2c00);
    assert!(c.generate_vblank_nmi());
    assert_eq!(c.bknd_pattern_addr(), 0x1000);
    assert_eq!(c.sprt_pattern_addr(), 0x1000);
    assert_eq!(c.sprite_size(), 16);
    c.update(0x01);
    assert_eq!(c.nametable_addr(), 0x2400);
    assert_eq!(c.bknd_pattern_addr(), 0);
    c.update(0x02);
    assert_eq!(c.nametable_addr(), 0x2800);
}

#[test]
fn status_register_bits() {
    let mut s = StatusRegister::new();
    assert!(!s.is_in_vblank());
    s.set_vblank_status(true);
    s.set_sprite_zero_hit(true);
    s.set_sprite_overflow(true);
    assert_eq!(s.snapshot(), 0xe0);
    assert!(s.is_in_vblank());
    s.reset_vblank_status();
    assert_eq!(s.snapshot(), 0x60);
    s.set_sprite_zero_hit(false);
    assert_eq!(s.snapshot(), 0x20);
}

#[test]
fn set_bits_sets_and_clears() {
    assert_eq!(set_bits(0b1010_0000, 0b0000_0011, true), 0b1010_0011);
    assert_eq!(set_bits(0b1010_0011, 0b0010_0001, false), 0b1000_0010);
}

#[test]
fn scroll_writes_alternate_and_latch() {
    let mut s = ScrollRegister::new();
    s.write(12);
    assert!(s.latch);
    s.write(34);
    assert!(!s.latch);
    assert_eq!((s.scroll_x, s.scroll_y), (0, 0));
    s.latch_for_render();
    assert_eq!((s.scroll_x, s.scroll_y), (12, 34));
    s.write(99);
    s.reset_latch();
    s.write(7);
    s.write(8);
    s.latch_for_render();
    assert_eq!((s.scroll_x, s.scroll_y), (7, 8));
}

#[test]
fn joypad_shifts_out_buttons() {
    let mut j = Joypad::new();
    j.set_button_pressed_status(JoypadButton::BUTTON_A, true);
    j.set_button_pressed_status(JoypadButton::START, true);
    j.set_button_pressed_status(JoypadButton::RIGHT, true);
    j.write(1);
    j.write(0);
    let bits: Vec<u8> = (0..8).map(|_| j.read()).collect();
    assert_eq!(bits, vec![1, 0, 0, 1, 0, 0, 0, 1]);
    // after all eight buttons the port reads 1
    assert_eq!(j.read(), 1);
    assert_eq!(j.read(), 1);
}

#[test]
fn joypad_strobe_holds_button_a() {
    let mut j = Joypad::new();
    j.set_button_pressed_status(JoypadButton::BUTTON_A, true);
    j.write(1);
    assert_eq!(j.read(), 1);
    assert_eq!(j.read(), 1);
    j.set_button_pressed_status(JoypadButton::BUTTON_A, false);
    assert_eq!(j.read(), 0);
}

#[test]
fn joypad_release_clears_button() {
    let mut j = Joypad::new();
    j.set_button_pressed_status(JoypadButton::DOWN, true);
    j.set_button_pressed_status(JoypadButton::UP, true);
    j.set_button_pressed_status(JoypadButton::DOWN, false);
    assert_eq!(j.button_status, 0b0001_0000);
    assert_eq!(JoypadButton::LEFT.mask(), 0b0100_0000);
    assert_eq!(JoypadButton::SELECT.mask(), 0b0000_0100);
}
