use vstd::prelude::*;
use vstd::arithmetic::div_mod::{lemma_fundamental_div_mod, lemma_fundamental_div_mod_converse};
use crate::bus::{ppu_register, BusState};
use crate::cpu::{
    alu_adc, alu_bit, alu_compare, alu_logic, alu_sbc, alu_shift, branch_target, word, zn, CpuState, IRQ_VECTOR,
    NMI_VECTOR,
};
use crate::controller_register::{spec_bknd_pattern_addr, spec_sprt_pattern_addr, spec_vram_addr_increment};
use crate::frame::{
    bg_color_index, bg_has_data, bg_opaque, bg_palette_number, bg_pixel, oam_byte, render_pixel, sprite_behind,
    sprite_color_index, sprite_covers, sprite_flip_horizontal, sprite_flip_vertical, sprite_rgb, sprite_texel,
    tile_value, top_sprite,
};
use crate::palette::spec_system_palette;
use crate::rom_loader::{load_error, RomError, RomLoader};
use vstd::arithmetic::power2::pow2;
use vstd::bits::lemma_u8_shr_is_div;
use crate::scroll::ScrollState;
use crate::add_register::AddrState;
use crate::opcodes::{
    spec_decode, Instr, LogicOp, Mode, Opcode, Reg, ShiftOp, FLAG_B, FLAG_C, FLAG_D, FLAG_I, FLAG_N, FLAG_U,
    FLAG_V, FLAG_Z,
};
use crate::controller_register::{spec_generate_vblank_nmi, spec_nametable_addr};
use crate::joypad::JoypadState;
use crate::ppu::{
    lemma_mirror_mask, lemma_tick_advances, spec_mirror_vram_addr, Mirroring, PpuState, CYCLES_PER_SCANLINE,
    SCANLINES_PER_FRAME,
};
use crate::status::{lemma_with_bits, with_bits, STATUS_SPRITE_ZERO_HIT, STATUS_VBLANK_STARTED};

verus! {

/// Internal RAM is 2KB mirrored up to $1FFF: reading any mirror reads the
/// same byte.
pub proof fn lemma_ram_read_mirror(b: BusState, addr: u16)
    requires
        addr <= 0x1fff,
    ensures
        b.read(addr) == b.read(addr % 0x800),
{
}

/// Writing any RAM mirror writes the same byte.
pub proof fn lemma_ram_write_mirror(b: BusState, addr: u16, v: u8)
    requires
        addr <= 0x1fff,
    ensures
        b.write(addr, v) == b.write(addr % 0x800, v),
{
}

/// A byte written to RAM reads back at that address and all its mirrors,
/// and the rest of RAM is unchanged.
pub proof fn lemma_ram_write_read(b: BusState, addr: u16, v: u8, other: u16)
    requires
        b.wf(),
        !b.fault,
        addr <= 0x1fff,
        other <= 0x1fff,
    ensures
        b.write(addr, v).read(other).1 == if other % 0x800 == addr % 0x800 {
            v
        } else {
            b.read(other).1
        },
{
}

/// The eight PPU registers repeat every 8 bytes up to $3FFF, for reads and
/// for writes.
pub proof fn lemma_ppu_register_mirror(b: BusState, addr: u16, v: u8)
    requires
        0x2000 <= addr <= 0x3fff,
    ensures
        b.read(addr) == b.read(ppu_register(addr)),
        b.write(addr, v) == b.write(ppu_register(addr), v),
{
}

/// A single 16KB PRG ROM bank appears at both $8000 and $C000.
pub proof fn lemma_prg_mirror(b: BusState, k: u16)
    requires
        b.prg_rom.len() == 0x4000,
        k < 0x4000,
    ensures
        b.read((0x8000 + k) as u16) == b.read((0xC000 + k) as u16),
{
}

/// Name table mirroring: every address in $2000-$3EFF maps into the 2KB of
/// name table RAM; $3000-$3EFF repeats $2000-$2EFF; vertical mirroring
/// repeats $2000 and $2400 at $2800 and $2C00, horizontal mirroring shares
/// $2000 with $2400 and $2800 with $2C00.
pub proof fn lemma_nametable_mirroring(m: Mirroring, k: u16)
    requires
        k < 0x400,
    ensures
        forall|a: u16| 0x2000 <= a <= 0x3eff ==> #[trigger] spec_mirror_vram_addr(m, a) < 0x800,
        forall|a: u16|
            0x3000 <= a <= 0x3eff ==> #[trigger] spec_mirror_vram_addr(m, a) == spec_mirror_vram_addr(
                m,
                (a - 0x1000) as u16,
            ),
        m is VERTICAL ==> spec_mirror_vram_addr(m, (0x2000 + k) as u16) == spec_mirror_vram_addr(
            m,
            (0x2800 + k) as u16,
        ),
        m is VERTICAL ==> spec_mirror_vram_addr(m, (0x2400 + k) as u16) == spec_mirror_vram_addr(
            m,
            (0x2c00 + k) as u16,
        ),
        m is VERTICAL ==> spec_mirror_vram_addr(m, (0x2000 + k) as u16) != spec_mirror_vram_addr(
            m,
            (0x2400 + k) as u16,
        ),
        m is HORIZONTAL ==> spec_mirror_vram_addr(m, (0x2000 + k) as u16) == spec_mirror_vram_addr(
            m,
            (0x2400 + k) as u16,
        ),
        m is HORIZONTAL ==> spec_mirror_vram_addr(m, (0x2800 + k) as u16) == spec_mirror_vram_addr(
            m,
            (0x2c00 + k) as u16,
        ),
        m is HORIZONTAL ==> spec_mirror_vram_addr(m, (0x2000 + k) as u16) != spec_mirror_vram_addr(
            m,
            (0x2800 + k) as u16,
        ),
{
    assert forall|a: u16| 0x2000 <= a <= 0x3eff implies #[trigger] spec_mirror_vram_addr(m, a) < 0x800 by {
        lemma_mirror_mask(a);
    }
    assert forall|a: u16| 0x3000 <= a <= 0x3eff implies #[trigger] spec_mirror_vram_addr(m, a)
        == spec_mirror_vram_addr(m, (a - 0x1000) as u16) by {
        lemma_mirror_mask(a);
        lemma_mirror_mask((a - 0x1000) as u16);
    }
    lemma_mirror_mask((0x2000 + k) as u16);
    lemma_mirror_mask((0x2400 + k) as u16);
    lemma_mirror_mask((0x2800 + k) as u16);
    lemma_mirror_mask((0x2c00 + k) as u16);
}

/// Palette RAM is 32 bytes repeated through $3FFF, and $3F10, $3F14,
/// $3F18 and $3F1C are the entries of $3F00, $3F04, $3F08 and $3F0C.
pub proof fn lemma_palette_mirror(j: u16, k: u16)
    requires
        j < 4,
        k < 0xe0,
    ensures
        PpuState::palette_index((0x3f10 + 4 * j) as u16) == PpuState::palette_index(
            (0x3f00 + 4 * j) as u16,
        ),
        PpuState::palette_index((0x3f20 + k) as u16) == PpuState::palette_index((0x3f00 + k) as u16),
        0 <= PpuState::palette_index((0x3f00 + k) as u16) < 32,
{
}

/// Reading PPUSTATUS returns the status and ends the vertical blank flag
/// for later reads, leaving the other status bits as they were; besides
/// resetting the PPUADDR write toggle it changes nothing else.
pub proof fn lemma_status_read_clears_vblank(p: PpuState)
    ensures
        p.read_status().1 == p.status,
        p.read_status().0.status & STATUS_VBLANK_STARTED == 0,
        p.read_status().0.status & !STATUS_VBLANK_STARTED == p.status & !STATUS_VBLANK_STARTED,
        p.read_status().0.addr.hi_ptr,
        p.read_status().0 == (PpuState { status: p.read_status().0.status, addr: p.read_status().0.addr, ..p }),
{
    lemma_with_bits(p.status, STATUS_VBLANK_STARTED, false);
}

/// Sprite 0 hit: with sprites shown, the flag is raised as the scanline of
/// sprite 0's top row ends, and stays up until vertical blank starts; a
/// tick that ends no scanline leaves the status as it is.
pub proof fn lemma_sprite_zero_hit(p: PpuState, c: u8)
    requires
        p.wf(),
    ensures
        p.cycles + c < 341 ==> p.tick(c).0.status == p.status,
        p.cycles + c >= 341 && p.sprite_zero_hit_at(p.cycles + c) && p.scanline != 240 && p.scanline
            != 261 ==> p.tick(c).0.status & STATUS_SPRITE_ZERO_HIT != 0,
        p.cycles + c >= 341 && !p.sprite_zero_hit_at(p.cycles + c) && p.scanline != 240 && p.scanline
            != 261 ==> p.tick(c).0.status == p.status,
{
    lemma_with_bits(p.status, STATUS_SPRITE_ZERO_HIT, true);
}

/// Vertical blank starts when the PPU enters scanline 241: the status
/// flag is set, the NMI is raised when PPUCTRL enables it, and the pending
/// scroll position and the name table PPUCTRL selects become the ones the
/// picture is drawn with.
pub proof fn lemma_vblank_start(p: PpuState, c: u8)
    requires
        p.wf(),
        p.scanline == 240,
        p.cycles + c >= 341,
    ensures
        p.tick(c).0.scanline == 241,
        p.tick(c).0.status & STATUS_VBLANK_STARTED != 0,
        spec_generate_vblank_nmi(p.ctrl) ==> p.tick(c).0.nmi_interrupt == Some(1u8),
        p.tick(c).0.scroll.scroll_x == p.scroll.temp_x,
        p.tick(c).0.scroll.scroll_y == p.scroll.temp_y,
        p.tick(c).0.latched_nametable_addr == spec_nametable_addr(p.ctrl),
        !p.tick(c).1,
{
    let st0 = if p.sprite_zero_hit_at(p.cycles + c) {
        with_bits(p.status, 0x40, true)
    } else {
        p.status
    };
    lemma_with_bits(st0, STATUS_VBLANK_STARTED, true);
    let s1 = with_bits(st0, STATUS_VBLANK_STARTED, true);
    lemma_with_bits(s1, 0x40, false);
    assert(with_bits(s1, 0x40, false) & !0x40u8 == s1 & !0x40u8);
    assert(s1 & 0x80 != 0 ==> (s1 & !0x40u8) & 0x80 != 0) by (bit_vector);
}

/// Outside the start of vertical blank, ticking leaves the scroll position
/// and name table the picture is drawn with as they are: PPUSCROLL and
/// PPUCTRL writes in the middle of a frame do not move the picture.
pub proof fn lemma_latch_only_at_vblank(p: PpuState, c: u8)
    requires
        p.wf(),
        !(p.scanline == 240 && p.cycles + c >= 341),
    ensures
        p.tick(c).0.scroll.scroll_x == p.scroll.scroll_x,
        p.tick(c).0.scroll.scroll_y == p.scroll.scroll_y,
        p.tick(c).0.latched_nametable_addr == p.latched_nametable_addr,
{
}

/// Turning the NMI on in PPUCTRL while vertical blank is in progress raises
/// the NMI at once.
pub proof fn lemma_nmi_on_enable(p: PpuState, data: u8)
    requires
        !spec_generate_vblank_nmi(p.ctrl),
        spec_generate_vblank_nmi(data),
        p.status & STATUS_VBLANK_STARTED != 0,
    ensures
        p.write_control(data).nmi_interrupt == Some(1u8),
        p.write_control(data).ctrl == data,
{
}

/// PPUDATA reads of pattern and name table data are buffered: a read
/// returns what the previous read fetched, and fetches the byte at the
/// current address. So after a name table write, pointing PPUADDR back at
/// it and reading twice gives back the byte written (when the address step
/// stays within the name tables and their mirror at $3000-$3EFF).
pub proof fn lemma_vram_write_read_back(p: PpuState, v: u8)
    requires
        p.wf(),
        0x2000 <= p.addr.get(),
        p.addr.get() + crate::controller_register::spec_vram_addr_increment(p.ctrl) <= 0x3eff,
    ensures
        ({
            let written = p.write_data(v);
            let rewound = PpuState { addr: p.addr, ..written };
            let (after_first, _) = rewound.read_data();
            after_first.read_data().1 == v
        }),
{
    let a = p.addr.get();
    lemma_mirror_mask(a);
    let written = p.write_data(v);
    let rewound = PpuState { addr: p.addr, ..written };
    let (after_first, _) = rewound.read_data();
    crate::add_register::lemma_increment_get(p.addr, crate::controller_register::spec_vram_addr_increment(p.ctrl));
    assert(after_first.internal_data_buf == v);
}

/// With CHR RAM, a pattern byte written through PPUDATA reads back through
/// the read buffer on the second read (when the address step stays within
/// the pattern data).
pub proof fn lemma_chr_ram_write_read_back(p: PpuState, v: u8)
    requires
        p.wf(),
        p.chr_ram,
        p.addr.get() + crate::controller_register::spec_vram_addr_increment(p.ctrl) < p.chr_rom.len(),
        p.chr_rom.len() <= 0x2000,
    ensures
        ({
            let written = p.write_data(v);
            let rewound = PpuState { addr: p.addr, ..written };
            let (after_first, _) = rewound.read_data();
            after_first.read_data().1 == v
        }),
{
    crate::add_register::lemma_increment_get(p.addr, crate::controller_register::spec_vram_addr_increment(p.ctrl));
}

/// Writing palette data through PPUDATA and reading it back returns it
/// directly, without the read buffer, at every palette address and mirror.
pub proof fn lemma_palette_write_read_back(p: PpuState, v: u8)
    requires
        p.wf(),
        0x3f00 <= p.addr.get(),
    ensures
        (PpuState { addr: p.addr, ..p.write_data(v) }).read_data().1 == v,
{
}

/// OAMDATA writes store at OAMADDR and step it, so consecutive writes fill
/// consecutive sprite bytes; a read at the written address returns the byte.
pub proof fn lemma_oam_write_read(p: PpuState, d: u8)
    requires
        p.wf(),
    ensures
        (PpuState { oam_addr: p.oam_addr, ..p.write_oam_data(d) }).read_oam_data() == d,
        p.write_oam_data(d).oam_addr == p.oam_addr.wrapping_add(1),
{
}

/// The controller protocol: strobing rewinds to button A; with the strobe
/// off, reads return the buttons one at a time in the order A, B, Select,
/// Start, Up, Down, Left, Right, and 1 once all eight have been read.
pub proof fn lemma_joypad_protocol(s: JoypadState)
    requires
        s.wf(),
    ensures
        s.write(1).write(0).button_index == 0,
        !s.write(1).write(0).strobe,
        !s.strobe && s.button_index < 8 ==> (s.read_value() == (s.button_status >> s.button_index)
            & 1 && s.read_next().button_index == s.button_index + 1),
        s.button_index == 8 ==> (s.read_value() == 1 && s.read_next() == s),
        s.strobe ==> s.read_next() == s,
{
    assert(1u8 & 1 == 1 && 0u8 & 1 == 0) by (bit_vector);
}

/// Setting or clearing one status flag leaves the flags of a disjoint mask
/// as they were.
pub proof fn lemma_with_bits_other(bits: u8, mask: u8, value: bool, other: u8)
    requires
        mask & other == 0,
    ensures
        with_bits(bits, mask, value) & other == bits & other,
{
    assert(mask & other == 0 ==> (bits | mask) & other == bits & other && (bits & !mask) & other == bits
        & other) by (bit_vector);
}

/// The status flags occupy distinct bits.
pub proof fn lemma_flags_disjoint()
    ensures
        FLAG_Z & FLAG_C == 0,
        FLAG_N & FLAG_C == 0,
        0x40u8 & FLAG_C == 0,
        FLAG_N & FLAG_Z == 0,
        0x40u8 & FLAG_Z == 0,
        0x40u8 & FLAG_N == 0,
        FLAG_Z & FLAG_I == 0,
        FLAG_N & FLAG_I == 0,
        FLAG_Z & FLAG_D == 0,
        FLAG_N & FLAG_D == 0,
        FLAG_C & FLAG_V == 0,
        FLAG_Z & FLAG_V == 0,
        FLAG_N & FLAG_V == 0,
        FLAG_C != 0 && FLAG_Z != 0 && FLAG_N != 0 && FLAG_V != 0,
{
    assert(0x02u8 & 0x01u8 == 0 && 0x80u8 & 0x01u8 == 0 && 0x40u8 & 0x01u8 == 0 && 0x80u8 & 0x02u8 == 0
        && 0x40u8 & 0x02u8 == 0 && 0x40u8 & 0x80u8 == 0 && 0x02u8 & 0x04u8 == 0 && 0x80u8 & 0x04u8 == 0
        && 0x02u8 & 0x08u8 == 0 && 0x80u8 & 0x08u8 == 0 && 0x01u8 & 0x40u8 == 0 && 0x02u8 & 0x40u8 == 0
        && 0x80u8 & 0x40u8 == 0) by (bit_vector);
}

/// A byte pushed on the stack is the byte popped next, and the stack
/// pointer returns to where it was.
pub proof fn lemma_push_pop(s: CpuState, v: u8)
    requires
        s.bus.ram.len() == 0x800,
        !s.fault(),
    ensures
        s.push(v).pop().1 == v,
        s.push(v).pop().0.sp == s.sp,
        s.push(v).pop().0.bus == s.push(v).bus,
{
}

/// PLA after PHA restores the accumulator and the stack pointer.
pub proof fn lemma_pha_pla(s: CpuState)
    requires
        s.wf(),
        !s.fault(),
    ensures
        s.exec_pha().exec_pla().a == s.a,
        s.exec_pha().exec_pla().sp == s.sp,
{
    reveal(CpuState::exec_pha);
    reveal(CpuState::exec_pla);
    lemma_push_pop(s, s.a);
}

/// PLP after PHP restores the status register, except that B reads as clear.
pub proof fn lemma_php_plp(s: CpuState)
    requires
        s.wf(),
        !s.fault(),
    ensures
        s.exec_php().exec_plp().p == s.p & !FLAG_B,
        s.exec_php().exec_plp().sp == s.sp,
{
    reveal(CpuState::exec_php);
    reveal(CpuState::exec_plp);
    lemma_push_pop(s, s.p | FLAG_B);
    let p = s.p;
    assert((p | 0x10u8) & !0x10u8 == p & !0x10u8) by (bit_vector);
}

/// Reads leave RAM as it is, and a read of a faulted bus stays faulted.
proof fn lemma_read_keeps_ram(b: BusState, addr: u16)
    ensures
        b.read(addr).0.ram == b.ram,
        b.fault ==> b.read(addr).0.fault,
{
}

/// Writes keep a fault, and keep the size of RAM.
proof fn lemma_write_keeps(b: BusState, addr: u16, v: u8)
    requires
        b.ram.len() == 0x800,
    ensures
        b.fault ==> b.write(addr, v).fault,
        b.write(addr, v).ram.len() == 0x800,
{
}

/// Two bytes pushed onto the stack come back in reverse order, and two pops
/// bring the stack pointer back to where it was.
proof fn lemma_push2_pop2(s: CpuState, hi: u8, lo: u8, pc: u16)
    requires
        s.bus.ram.len() == 0x800,
        !s.fault(),
    ensures
        ({
            let t = s.push(hi).push(lo).with_pc(pc);
            &&& t.sp == s.sp.wrapping_sub(2)
            &&& t.bus.ram[0x100 + s.sp] == hi
            &&& t.bus.ram[0x100 + s.sp.wrapping_sub(1)] == lo
            &&& t.pop().1 == lo
            &&& t.pop().0.pop().1 == hi
            &&& t.pop().0.pop().0.sp == s.sp
        }),
{
    let s2 = s.push(hi);
    lemma_push_pop(s, hi);
    lemma_push_pop(s2, lo);
    let t = s2.push(lo).with_pc(pc);
    let u = t.pop().0;
    assert(u.sp == s2.sp);
    assert(u.bus.ram == s.bus.ram.update((0x100 + s.sp) as int, hi).update(
        (0x100 + s2.sp) as int,
        lo,
    ));
    assert(u.pop().1 == hi);
}

/// The first half of JSR: the operand fetch moves the program counter two
/// bytes on and changes neither the stack pointer nor RAM.
proof fn lemma_jsr_fetch(s: CpuState)
    requires
        s.wf(),
    ensures
        ({
            let (s1, addr) = s.operand_addr(crate::opcodes::Mode::Absolute);
            &&& s1.pc == s.pc.wrapping_add(2)
            &&& s1.sp == s.sp
            &&& s1.bus.ram == s.bus.ram
        }),
{
    let (r1, lo_byte) = s.read(s.pc);
    lemma_read_keeps_ram(s.bus, s.pc);
    let r2 = r1.next_pc();
    lemma_read_keeps_ram(r2.bus, r2.pc);
}

/// JSR pushes the address of its last operand byte, high byte first, and
/// RTS returns from it: execution continues after JSR's two operand bytes,
/// with the stack pointer where it was before the call.
#[verifier::rlimit(100)]
pub proof fn lemma_jsr_rts(s: CpuState)
    requires
        s.wf(),
        !s.exec_jsr().fault(),
    ensures
        s.exec_jsr().sp == s.sp.wrapping_sub(2),
        s.exec_jsr().bus.ram[0x100 + s.sp] == (s.pc.wrapping_add(1) >> 8u16) as u8,
        s.exec_jsr().bus.ram[0x100 + s.sp.wrapping_sub(1)] == (s.pc.wrapping_add(1) & 0xFF) as u8,
        s.exec_jsr().exec_rts().pc == s.pc.wrapping_add(2),
        s.exec_jsr().exec_rts().sp == s.sp,
{
    reveal(CpuState::exec_jsr);
    reveal(CpuState::exec_rts);
    let (s1, addr) = s.operand_addr(crate::opcodes::Mode::Absolute);
    lemma_jsr_fetch(s);
    let ret = s1.pc.wrapping_sub(1);
    let hi = (ret >> 8u16) as u8;
    let lo = (ret & 0xFF) as u8;
    let s2 = s1.push(hi);
    lemma_write_keeps(s1.bus, (0x100 + s1.sp) as u16, hi);
    lemma_write_keeps(s2.bus, (0x100 + s2.sp) as u16, lo);
    assert(!s1.fault());
    lemma_push2_pop2(s1, hi, lo, addr);
    assert(ret == s.pc.wrapping_add(1));
    assert(((hi as u16) * 256 + lo as u16) as u16 == ret) by (bit_vector)
        requires
            hi == (ret >> 8u16) as u8,
            lo == (ret & 0xFF) as u8,
    ;
}

/// ADC adds the operand and the carry: the accumulator becomes the sum
/// modulo 256; C reports a carry out of bit 7, Z a zero result and N its
/// bit 7.
pub proof fn lemma_adc_arithmetic(a: u8, v: u8, p: u8)
    ensures
        ({
            let c: int = if p & FLAG_C != 0 { 1 } else { 0 };
            let sum = a + v + c;
            let (r, q) = alu_adc(a, v, p);
            &&& r == sum % 256
            &&& (q & FLAG_C != 0) == (sum > 255)
            &&& (q & FLAG_Z != 0) == (sum % 256 == 0)
            &&& (q & FLAG_N != 0) == (sum % 256 >= 128)
        }),
{
    lemma_flags_disjoint();
    let carry: u16 = if p & FLAG_C != 0 { 1 } else { 0 };
    let result = (a as u16 + v as u16 + carry) as u16;
    assert(carry <= 1 ==> ((a as u16 + v as u16 + carry) as u16 & 0xFF) as u8 == (a + v + carry) % 256)
        by (bit_vector);
    assert(carry <= 1 ==> ((((a as u16 + v as u16 + carry) as u16) & 0x80 != 0) == ((a + v + carry) % 256 >= 128)))
        by (bit_vector);
    assert(carry <= 1 ==> ((((a as u16 + v as u16 + carry) as u16) & 0xFF == 0) == ((a + v + carry) % 256 == 0)))
        by (bit_vector);
    let p1 = with_bits(p, FLAG_C, result > 0xFF);
    let p2 = with_bits(p1, FLAG_Z, result & 0xFF == 0);
    let p3 = with_bits(p2, FLAG_N, result & 0x80 != 0);
    let vflag = (a ^ v) & 0x80 == 0 && (a ^ (result as u8)) & 0x80 != 0;
    lemma_with_bits(p, FLAG_C, result > 0xFF);
    lemma_with_bits_other(p1, FLAG_Z, result & 0xFF == 0, FLAG_C);
    lemma_with_bits_other(p2, FLAG_N, result & 0x80 != 0, FLAG_C);
    lemma_with_bits_other(p3, 0x40, vflag, FLAG_C);
    lemma_with_bits(p1, FLAG_Z, result & 0xFF == 0);
    lemma_with_bits_other(p2, FLAG_N, result & 0x80 != 0, FLAG_Z);
    lemma_with_bits_other(p3, 0x40, vflag, FLAG_Z);
    lemma_with_bits(p2, FLAG_N, result & 0x80 != 0);
    lemma_with_bits_other(p3, 0x40, vflag, FLAG_N);
}

/// SBC subtracts the operand and the borrow (the inverted carry): the
/// accumulator becomes the difference modulo 256, and C is set exactly when
/// no borrow was needed.
pub proof fn lemma_sbc_arithmetic(a: u8, v: u8, p: u8)
    ensures
        ({
            let borrow: int = if p & FLAG_C != 0 { 0 } else { 1 };
            let diff = a - v - borrow;
            let (r, q) = alu_sbc(a, v, p);
            &&& r == diff % 256
            &&& (q & FLAG_C != 0) == (diff >= 0)
            &&& (q & FLAG_Z != 0) == (diff % 256 == 0)
        }),
{
    lemma_flags_disjoint();
    let carry: u16 = if p & FLAG_C != 0 { 0 } else { 1 };
    let result = (a as u16).wrapping_sub(v as u16).wrapping_sub(carry);
    let d = a - v - carry;
    if d >= 0 {
        assert(result == d);
    } else {
        assert(result == d + 0x10000);
        assert((d + 0x10000) % 256 == d % 256);
    }
    assert(result & 0xFF == result % 256) by (bit_vector);
    assert((result & 0xFF) as u8 == result % 256) by (bit_vector);
    let p1 = with_bits(p, FLAG_C, result < 0x100);
    let p2 = with_bits(p1, FLAG_Z, result & 0xFF == 0);
    let p3 = with_bits(p2, FLAG_N, result & 0x80 != 0);
    let vflag = (a ^ v) & 0x80 != 0 && (a ^ (result as u8)) & 0x80 != 0;
    lemma_with_bits(p, FLAG_C, result < 0x100);
    lemma_with_bits_other(p1, FLAG_Z, result & 0xFF == 0, FLAG_C);
    lemma_with_bits_other(p2, FLAG_N, result & 0x80 != 0, FLAG_C);
    lemma_with_bits_other(p3, 0x40, vflag, FLAG_C);
    lemma_with_bits(p1, FLAG_Z, result & 0xFF == 0);
    lemma_with_bits_other(p2, FLAG_N, result & 0x80 != 0, FLAG_Z);
    lemma_with_bits_other(p3, 0x40, vflag, FLAG_Z);
}

/// Binary SBC is ADC of the complemented operand: the accumulator and every
/// flag (C, Z, V, N) come out the same.
pub proof fn lemma_sbc_is_adc_of_complement(a: u8, v: u8, p: u8)
    ensures
        alu_sbc(a, v, p) == alu_adc(a, v ^ 0xff, p),
{
    let w = v ^ 0xff;
    assert(w == 255 - v && (((a ^ w) & 0x80 == 0) == ((a ^ v) & 0x80 != 0))) by (bit_vector)
        requires
            w == v ^ 0xff,
    ;
    let c_in = p & FLAG_C != 0;
    let borrow: u16 = if c_in { 0 } else { 1 };
    let carry: u16 = if c_in { 1 } else { 0 };
    let r1 = (a as u16).wrapping_sub(v as u16).wrapping_sub(borrow);
    let r2 = (a as u16 + w as u16 + carry) as u16;
    let d = a - v - borrow;
    if d >= 0 {
        assert(r1 == d);
    } else {
        assert(r1 == d + 0x10000);
    }
    assert(r2 == d + 256);
    lemma_low_byte(r1);
    lemma_low_byte(r2);
    assert(r1 & 0xFF == r2 & 0xFF);
    assert((r1 & 0x80 != 0) == (r2 & 0x80 != 0));
    assert((r1 as u8) == (r2 as u8));
    assert((r1 < 0x100) == (r2 > 0xFF));
}

/// The low byte of a 16-bit value, by mask, by remainder and by truncation.
proof fn lemma_low_byte(x: u16)
    ensures
        x & 0xFF == x % 256,
        (x as u8) == x % 256,
        (x & 0x80 != 0) == (x % 256 >= 128),
{
    assert(x & 0xFF == x % 256 && (x as u8) == x % 256 && ((x & 0x80 != 0) == (x % 256 >= 128)))
        by (bit_vector);
}

/// ROR A undoes ROL A as instructions: two cycles each, and the accumulator,
/// the carry, the other registers, the program counter and the bus come back
/// as they were.
pub proof fn lemma_rol_ror_accumulator(s: CpuState)
    requires
        s.wf(),
    ensures
        ({
            let (t, c1) = s.execute(0x2A);
            let (u, c2) = t.execute(0x6A);
            &&& c1 == 2 && c2 == 2
            &&& u.a == s.a
            &&& (u.p & FLAG_C != 0) == (s.p & FLAG_C != 0)
            &&& u.x == s.x && u.y == s.y && u.sp == s.sp && u.pc == s.pc
            &&& u.bus == s.bus && u.memory == s.memory
        }),
{
    reveal(spec_decode);
    reveal(CpuState::exec_shift);
    assert(spec_decode(0x2A) == (Opcode { instr: Instr::Shift(ShiftOp::Rol), mode: Mode::Accumulator, cycles: 2 }));
    assert(spec_decode(0x6A) == (Opcode { instr: Instr::Shift(ShiftOp::Ror), mode: Mode::Accumulator, cycles: 2 }));
    lemma_rol_ror(s.a, s.p);
}

/// A step with no NMI pending is fetch, execute and tick: it reads the
/// opcode at the program counter, moves past it, executes it and advances
/// the machine by the instruction's cycles.
pub proof fn lemma_step_is_fetch_execute_tick(s: CpuState)
    requires
        s.bus.ppu.nmi_interrupt.is_none(),
    ensures
        ({
            let (s2, opcode) = s.read(s.pc);
            let (s4, cycles) = s2.next_pc().execute(opcode);
            &&& s.fetched_opcode() == opcode
            &&& s.step() == (CpuState { bus: s4.bus.tick(cycles).0, ..s4 }, s4.bus.tick(cycles).1)
            &&& !s4.fault() ==> s.step().0.bus.cycles == s4.bus.cycles.wrapping_add(cycles as usize)
        }),
{
    reveal(CpuState::step);
}

/// NMI entry pushes the program counter, high byte first, then P with B
/// clear and bit 5 set; it sets I in P and jumps through $FFFA.
#[verifier::rlimit(100)]
pub proof fn lemma_nmi_entry(s: CpuState)
    requires
        s.wf(),
        !s.fault(),
        s.bus.prg_rom.len() > 0,
    ensures
        ({
            let t = s.nmi().0;
            &&& t.sp == s.sp.wrapping_sub(3)
            &&& t.bus.ram[0x100 + s.sp] == (s.pc >> 8u16) as u8
            &&& t.bus.ram[0x100 + s.sp.wrapping_sub(1)] == (s.pc & 0xff) as u8
            &&& t.bus.ram[0x100 + s.sp.wrapping_sub(2)] == with_bits(with_bits(s.p, FLAG_B, false), FLAG_U, true)
            &&& t.p & FLAG_I != 0
            &&& t.pc == s.bus.read_u16(NMI_VECTOR).1
            &&& !t.fault()
        }),
{
    let s1 = s.push((s.pc >> 8u16) as u8);
    let s2 = s1.push((s.pc & 0xff) as u8);
    lemma_write_keeps(s.bus, (0x100 + s.sp) as u16, (s.pc >> 8u16) as u8);
    lemma_write_keeps(s1.bus, (0x100 + s1.sp) as u16, (s.pc & 0xff) as u8);
    let flag = with_bits(with_bits(s2.p, FLAG_B, false), FLAG_U, true);
    lemma_write_keeps(s2.bus, (0x100 + s2.sp) as u16, flag);
    let p = s2.p;
    assert((p | 0x04u8) & 0x04u8 != 0) by (bit_vector);
}

/// A call a program makes on the PPU.
pub enum PpuCall {
    Tick(u8),
    ReadStatus,
    ReadData,
    WriteData(u8),
    WriteControl(u8),
    WriteMask(u8),
    WriteOamAddr(u8),
    WriteOamData(u8),
    WriteScroll(u8),
    WriteAddr(u8),
}

/// The PPU after `call`, and whether the call finished a frame.
pub open spec fn apply_call(p: PpuState, call: PpuCall) -> (PpuState, bool) {
    match call {
        PpuCall::Tick(c) => p.tick(c),
        PpuCall::ReadStatus => (p.read_status().0, false),
        PpuCall::ReadData => (p.read_data().0, false),
        PpuCall::WriteData(v) => (p.write_data(v), false),
        PpuCall::WriteControl(v) => (p.write_control(v), false),
        PpuCall::WriteMask(v) => (PpuState { mask: v, ..p }, false),
        PpuCall::WriteOamAddr(v) => (PpuState { oam_addr: v, ..p }, false),
        PpuCall::WriteOamData(v) => (p.write_oam_data(v), false),
        PpuCall::WriteScroll(v) => (PpuState { scroll: p.scroll.write(v), ..p }, false),
        PpuCall::WriteAddr(v) => (PpuState { addr: p.addr.update(v), ..p }, false),
    }
}

/// The PPU after each call of `calls` in turn, and how many frames they finished.
pub open spec fn apply_calls(p: PpuState, calls: Seq<PpuCall>) -> (PpuState, nat)
    decreases calls.len(),
{
    if calls.len() == 0 {
        (p, 0)
    } else {
        let (q, n) = apply_calls(p, calls.drop_last());
        let (r, f) = apply_call(q, calls.last());
        (r, if f { n + 1 } else { n })
    }
}

/// PPU cycles the ticks among `calls` add up to.
pub open spec fn call_cycles(calls: Seq<PpuCall>) -> int
    decreases calls.len(),
{
    if calls.len() == 0 {
        0
    } else {
        call_cycles(calls.drop_last()) + match calls.last() {
            PpuCall::Tick(c) => c as int,
            _ => 0,
        }
    }
}

/// Register reads and writes leave the PPU where it is in the frame, and
/// keep it well formed.
pub proof fn lemma_call_keeps_position(p: PpuState, call: PpuCall)
    requires
        p.wf(),
    ensures
        apply_call(p, call).0.wf(),
        !(call is Tick) ==> apply_call(p, call).0.frame_position() == p.frame_position()
            && !apply_call(p, call).1,
{
    if let PpuCall::Tick(c) = call {
        lemma_tick_advances(p, c);
    }
    crate::add_register::lemma_increment_get(p.addr, crate::controller_register::spec_vram_addr_increment(p.ctrl));
    lemma_mirror_mask(p.addr.get());
}

/// Frames are 262 scanlines of 341 cycles whatever other calls come between
/// the ticks: the frames finished, and the position reached within the
/// frame, follow from the starting position and the cycles the ticks add up
/// to. From power-on, a tick reports a finished frame exactly when the
/// running total of tick cycles passes a multiple of 262 * 341.
pub proof fn lemma_calls_count_frames(p: PpuState, calls: Seq<PpuCall>)
    requires
        p.wf(),
    ensures
        apply_calls(p, calls).0.wf(),
        apply_calls(p, calls).1 == (p.frame_position() + call_cycles(calls)) / (SCANLINES_PER_FRAME
            * CYCLES_PER_SCANLINE),
        apply_calls(p, calls).0.frame_position() == (p.frame_position() + call_cycles(calls)) % (
        SCANLINES_PER_FRAME * CYCLES_PER_SCANLINE),
    decreases calls.len(),
{
    let f: int = SCANLINES_PER_FRAME * CYCLES_PER_SCANLINE;
    assert(f == 89342);
    if calls.len() == 0 {
        lemma_fundamental_div_mod_converse(p.frame_position(), f, 0, p.frame_position());
    } else {
        let init = calls.drop_last();
        lemma_calls_count_frames(p, init);
        let (q, n) = apply_calls(p, init);
        let x = p.frame_position() + call_cycles(init);
        lemma_fundamental_div_mod(x, f);
        assert(x == n * f + q.frame_position());
        lemma_call_keeps_position(q, calls.last());
        match calls.last() {
            PpuCall::Tick(c) => {
                lemma_tick_advances(q, c);
                if q.tick(c).1 {
                    lemma_fundamental_div_mod_converse(x + c, f, (n + 1) as int, q.frame_position() + c - f);
                } else {
                    lemma_fundamental_div_mod_converse(x + c, f, n as int, q.frame_position() + c);
                }
            },
            _ => {
                lemma_fundamental_div_mod_converse(x, f, n as int, q.frame_position());
            },
        }
    }
}

/// Z and N follow a result: Z is set exactly when it is zero and N is its
/// bit 7; C, V, I and D are kept.
pub proof fn lemma_zn(p: u8, r: u8)
    ensures
        (zn(p, r) & FLAG_Z != 0) == (r == 0),
        (zn(p, r) & FLAG_N != 0) == (r & 0x80 != 0),
        zn(p, r) & FLAG_C == p & FLAG_C,
        zn(p, r) & FLAG_V == p & FLAG_V,
        zn(p, r) & FLAG_I == p & FLAG_I,
        zn(p, r) & FLAG_D == p & FLAG_D,
{
    lemma_flags_disjoint();
    let q = with_bits(p, FLAG_Z, r == 0);
    lemma_with_bits(p, FLAG_Z, r == 0);
    lemma_with_bits(q, FLAG_N, r & 0x80 != 0);
    lemma_with_bits_other(q, FLAG_N, r & 0x80 != 0, FLAG_Z);
    lemma_with_bits_other(p, FLAG_Z, r == 0, FLAG_C);
    lemma_with_bits_other(q, FLAG_N, r & 0x80 != 0, FLAG_C);
    lemma_with_bits_other(p, FLAG_Z, r == 0, FLAG_V);
    lemma_with_bits_other(q, FLAG_N, r & 0x80 != 0, FLAG_V);
    lemma_with_bits_other(p, FLAG_Z, r == 0, FLAG_I);
    lemma_with_bits_other(q, FLAG_N, r & 0x80 != 0, FLAG_I);
    lemma_with_bits_other(p, FLAG_Z, r == 0, FLAG_D);
    lemma_with_bits_other(q, FLAG_N, r & 0x80 != 0, FLAG_D);
}

/// AND, ORA and EOR combine the accumulator and the operand bit by bit.
pub proof fn lemma_logic_ops(a: u8, v: u8)
    ensures
        alu_logic(LogicOp::And, a, v) == a & v,
        alu_logic(LogicOp::Ora, a, v) == a | v,
        alu_logic(LogicOp::Eor, a, v) == a ^ v,
{
}

/// The immediate forms of AND ($29), ORA ($09) and EOR ($49) take two
/// cycles, step past their operand byte, leave in A the bitwise AND, OR or
/// XOR of A with that byte, set Z and N from the result and keep C and V.
pub proof fn lemma_logic_immediate(s: CpuState)
    requires
        s.wf(),
    ensures
        ({
            let v = s.read(s.pc).1;
            let (t, c) = s.execute(0x29);
            &&& c == 2 && t.a == s.a & v && t.pc == s.pc.wrapping_add(1)
            &&& (t.p & FLAG_Z != 0) == (s.a & v == 0) && (t.p & FLAG_N != 0) == ((s.a & v) & 0x80 != 0)
            &&& t.p & FLAG_C == s.p & FLAG_C && t.p & FLAG_V == s.p & FLAG_V
        }),
        ({
            let v = s.read(s.pc).1;
            let (t, c) = s.execute(0x09);
            &&& c == 2 && t.a == s.a | v && t.pc == s.pc.wrapping_add(1)
            &&& (t.p & FLAG_Z != 0) == (s.a | v == 0) && (t.p & FLAG_N != 0) == ((s.a | v) & 0x80 != 0)
            &&& t.p & FLAG_C == s.p & FLAG_C && t.p & FLAG_V == s.p & FLAG_V
        }),
        ({
            let v = s.read(s.pc).1;
            let (t, c) = s.execute(0x49);
            &&& c == 2 && t.a == s.a ^ v && t.pc == s.pc.wrapping_add(1)
            &&& (t.p & FLAG_Z != 0) == (s.a ^ v == 0) && (t.p & FLAG_N != 0) == ((s.a ^ v) & 0x80 != 0)
            &&& t.p & FLAG_C == s.p & FLAG_C && t.p & FLAG_V == s.p & FLAG_V
        }),
{
    reveal(spec_decode);
    reveal(CpuState::exec_logic);
    let v = s.read(s.pc).1;
    assert(spec_decode(0x29) == (Opcode { instr: Instr::Logic(LogicOp::And), mode: Mode::Immediate, cycles: 2 }));
    assert(spec_decode(0x09) == (Opcode { instr: Instr::Logic(LogicOp::Ora), mode: Mode::Immediate, cycles: 2 }));
    assert(spec_decode(0x49) == (Opcode { instr: Instr::Logic(LogicOp::Eor), mode: Mode::Immediate, cycles: 2 }));
    lemma_zn(s.p, s.a & v);
    lemma_zn(s.p, s.a | v);
    lemma_zn(s.p, s.a ^ v);
}

/// LDA immediate ($A9) loads the byte after the opcode into A and sets Z
/// and N from it; ADC ($69) and SBC ($E9) immediate add the byte and the
/// carry, or subtract the byte and the borrow, modulo 256.
pub proof fn lemma_load_add_sub_immediate(s: CpuState)
    requires
        s.wf(),
    ensures
        ({
            let v = s.read(s.pc).1;
            let (t, c) = s.execute(0xA9);
            &&& c == 2 && t.a == v && t.pc == s.pc.wrapping_add(1) && t.x == s.x && t.y == s.y
            &&& (t.p & FLAG_Z != 0) == (v == 0) && (t.p & FLAG_N != 0) == (v & 0x80 != 0)
            &&& t.p & FLAG_C == s.p & FLAG_C
        }),
        ({
            let v = s.read(s.pc).1;
            let (t, c) = s.execute(0x69);
            let carry: int = if s.p & FLAG_C != 0 { 1 } else { 0 };
            &&& c == 2 && t.a == (s.a + v + carry) % 256 && t.pc == s.pc.wrapping_add(1)
            &&& (t.p & FLAG_C != 0) == (s.a + v + carry > 255)
            &&& (t.p & FLAG_Z != 0) == (t.a == 0)
        }),
        ({
            let v = s.read(s.pc).1;
            let (t, c) = s.execute(0xE9);
            let borrow: int = if s.p & FLAG_C != 0 { 0 } else { 1 };
            &&& c == 2 && t.a == (s.a - v - borrow) % 256 && t.pc == s.pc.wrapping_add(1)
            &&& (t.p & FLAG_C != 0) == (s.a - v - borrow >= 0)
            &&& (t.p & FLAG_Z != 0) == (t.a == 0)
        }),
{
    reveal(spec_decode);
    reveal(CpuState::exec_load);
    reveal(CpuState::exec_adc);
    reveal(CpuState::exec_sbc);
    let v = s.read(s.pc).1;
    assert(spec_decode(0xA9) == (Opcode { instr: Instr::Load(Reg::A), mode: Mode::Immediate, cycles: 2 }));
    assert(spec_decode(0x69) == (Opcode { instr: Instr::Adc, mode: Mode::Immediate, cycles: 2 }));
    assert(spec_decode(0xE9) == (Opcode { instr: Instr::Sbc, mode: Mode::Immediate, cycles: 2 }));
    lemma_zn(s.p, v);
    lemma_adc_arithmetic(s.a, v, s.p);
    lemma_sbc_arithmetic(s.a, v, s.p);
}

/// Each 2x2-tile quadrant of a 4x4-tile attribute area takes its background
/// palette from its own two bits of the attribute byte: top-left bits 0-1,
/// top-right bits 2-3, bottom-left bits 4-5, bottom-right bits 6-7.
pub proof fn lemma_bg_palette_quadrants(p: PpuState, nt: int, col: int, row: int)
    requires
        0 <= col < 32,
        0 <= row < 30,
    ensures
        ({
            let attr = p.vram[nt + 0x3c0 + (row / 4) * 8 + col / 4];
            &&& col % 4 < 2 && row % 4 < 2 ==> bg_palette_number(p, nt, col, row) == attr & 3
            &&& col % 4 >= 2 && row % 4 < 2 ==> bg_palette_number(p, nt, col, row) == (attr >> 2u8) & 3
            &&& col % 4 < 2 && row % 4 >= 2 ==> bg_palette_number(p, nt, col, row) == (attr >> 4u8) & 3
            &&& col % 4 >= 2 && row % 4 >= 2 ==> bg_palette_number(p, nt, col, row) == (attr >> 6u8) & 3
        }),
{
}

/// Palette RAM holds 32 entries. Within a 32-byte block, addresses name
/// distinct entries, except that $3F10, $3F14, $3F18 and $3F1C share the
/// entries of $3F00, $3F04, $3F08 and $3F0C; background entries are
/// themselves, and the sprite colours ($3F11-$3F13, $3F15-...) are entries
/// of their own.
pub proof fn lemma_palette_entries(i: u16, j: u16)
    requires
        i < 32,
        j < 32,
    ensures
        0 <= PpuState::palette_index((0x3f00 + i) as u16) < 32,
        i < 0x10 ==> PpuState::palette_index((0x3f00 + i) as u16) == i,
        i % 4 != 0 ==> PpuState::palette_index((0x3f00 + i) as u16) == i,
        (PpuState::palette_index((0x3f00 + i) as u16) == PpuState::palette_index((0x3f00 + j) as u16)) <==> (
        i == j || (i % 4 == 0 && (i == j + 0x10 || j == i + 0x10))),
{
}

/// A PPUDATA write to a sprite colour ($3F11-$3F13, $3F15-$3F17, ... and
/// their mirrors) stores that colour and leaves all 16 background entries
/// as they were.
pub proof fn lemma_sprite_palette_write(p: PpuState, v: u8)
    requires
        p.wf(),
        0x3f00 <= p.addr.get(),
        (p.addr.get() - 0x3f00) % 32 >= 0x10,
        (p.addr.get() - 0x3f00) % 4 != 0,
    ensures
        p.write_data(v).palette_table[(p.addr.get() - 0x3f00) % 32] == v,
        forall|j: int| 0 <= j < 0x10 ==> #[trigger] p.write_data(v).palette_table[j] == p.palette_table[j],
{
}

/// CPU writes to the PPU registers ($2000 + r and its mirrors every 8
/// bytes) act on register r alone: PPUCTRL takes the byte, PPUMASK takes
/// it, PPUSTATUS ignores it, OAMADDR takes it, OAMDATA stores it at OAMADDR
/// and steps OAMADDR, PPUSCROLL and PPUADDR take it into the half their
/// write toggle points at and flip the toggle. RAM and the controller are
/// left alone.
pub proof fn lemma_ppu_register_writes(b: BusState, k: u16, v: u8)
    requires
        b.wf(),
        !b.fault,
        k < 0x400,
    ensures
        ({
            let w = b.write((0x2000 + 8 * k) as u16, v);
            w.ppu == (PpuState { ctrl: v, nmi_interrupt: w.ppu.nmi_interrupt, ..b.ppu }) && w.ram == b.ram
                && w.joypad == b.joypad
        }),
        b.write((0x2001 + 8 * k) as u16, v) == (BusState { ppu: PpuState { mask: v, ..b.ppu }, ..b }),
        b.write((0x2002 + 8 * k) as u16, v) == b,
        b.write((0x2003 + 8 * k) as u16, v) == (BusState { ppu: PpuState { oam_addr: v, ..b.ppu }, ..b }),
        b.write((0x2004 + 8 * k) as u16, v) == (BusState {
            ppu: PpuState {
                oam_data: b.ppu.oam_data.update(b.ppu.oam_addr as int, v),
                oam_addr: b.ppu.oam_addr.wrapping_add(1),
                ..b.ppu
            },
            ..b
        }),
        b.write((0x2005 + 8 * k) as u16, v) == (BusState {
            ppu: PpuState {
                scroll: if !b.ppu.scroll.latch {
                    ScrollState { temp_x: v, latch: true, ..b.ppu.scroll }
                } else {
                    ScrollState { temp_y: v, latch: false, ..b.ppu.scroll }
                },
                ..b.ppu
            },
            ..b
        }),
        b.write((0x2006 + 8 * k) as u16, v) == (BusState {
            ppu: PpuState {
                addr: if b.ppu.addr.hi_ptr {
                    AddrState { hi: v % 64, lo: b.ppu.addr.lo, hi_ptr: false }
                } else {
                    AddrState { hi: b.ppu.addr.hi % 64, lo: v, hi_ptr: true }
                },
                ..b.ppu
            },
            ..b
        }),
{
    assert((0x2000 + 8 * k) % 8 == 0);
    assert((0x2001 + 8 * k) % 8 == 1);
    assert((0x2002 + 8 * k) % 8 == 2);
    assert((0x2003 + 8 * k) % 8 == 3);
    assert((0x2004 + 8 * k) % 8 == 4);
    assert((0x2005 + 8 * k) % 8 == 5);
    assert((0x2006 + 8 * k) % 8 == 6);
    assert(crate::bus::write_target((0x2000 + 8 * k) as u16) == 0x2000);
    assert(crate::bus::write_target((0x2001 + 8 * k) as u16) == 0x2001);
    assert(crate::bus::write_target((0x2002 + 8 * k) as u16) == 0x2002);
    assert(crate::bus::write_target((0x2003 + 8 * k) as u16) == 0x2003);
    assert(crate::bus::write_target((0x2004 + 8 * k) as u16) == 0x2004);
    assert(crate::bus::write_target((0x2005 + 8 * k) as u16) == 0x2005);
    assert(crate::bus::write_target((0x2006 + 8 * k) as u16) == 0x2006);
}

/// A PPUCTRL write takes the byte, and raises the NMI only when it turns
/// NMI generation (bit 7) from off to on while vertical blank (PPUSTATUS
/// bit 7) is in progress; otherwise the pending NMI is left as it was.
pub proof fn lemma_write_control_nmi(p: PpuState, d: u8)
    ensures
        p.write_control(d) == (PpuState {
            ctrl: d,
            nmi_interrupt: if p.ctrl & 0x80 == 0 && d & 0x80 != 0 && p.status & 0x80 != 0 {
                Some(1u8)
            } else {
                p.nmi_interrupt
            },
            ..p
        }),
{
}

/// BIT sets Z when A AND the operand is zero, and copies the operand's bit 6
/// into V and bit 7 into N; C is kept.
pub proof fn lemma_bit_flags(a: u8, v: u8, p: u8)
    ensures
        (alu_bit(a, v, p) & FLAG_Z != 0) == (a & v == 0),
        (alu_bit(a, v, p) & FLAG_V != 0) == (v & 0x40 != 0),
        (alu_bit(a, v, p) & FLAG_N != 0) == (v & 0x80 != 0),
        alu_bit(a, v, p) & FLAG_C == p & FLAG_C,
{
    lemma_flags_disjoint();
    let q1 = with_bits(p, FLAG_Z, a & v == 0);
    let q2 = with_bits(q1, FLAG_V, v & 0x40 != 0);
    lemma_with_bits(p, FLAG_Z, a & v == 0);
    lemma_with_bits(q1, FLAG_V, v & 0x40 != 0);
    lemma_with_bits(q2, FLAG_N, v & 0x80 != 0);
    lemma_with_bits_other(q1, FLAG_V, v & 0x40 != 0, FLAG_Z);
    lemma_with_bits_other(q2, FLAG_N, v & 0x80 != 0, FLAG_Z);
    lemma_with_bits_other(q2, FLAG_N, v & 0x80 != 0, FLAG_V);
    lemma_with_bits_other(p, FLAG_Z, a & v == 0, FLAG_C);
    lemma_with_bits_other(q1, FLAG_V, v & 0x40 != 0, FLAG_C);
    lemma_with_bits_other(q2, FLAG_N, v & 0x80 != 0, FLAG_C);
}

/// Shifts as arithmetic: ASL doubles modulo 256 and ROL also adds the old
/// carry; LSR halves and ROR also adds 128 for the old carry. ASL and ROL
/// move bit 7 into C, LSR and ROR bit 0; LSR clears N.
pub proof fn lemma_shift_values(v: u8, p: u8)
    ensures
        ({
            let c: int = if p & FLAG_C != 0 { 1 } else { 0 };
            &&& alu_shift(ShiftOp::Asl, v, p).0 == (2 * v) % 256
            &&& (alu_shift(ShiftOp::Asl, v, p).1 & FLAG_C != 0) == (v >= 128)
            &&& alu_shift(ShiftOp::Lsr, v, p).0 == v / 2
            &&& (alu_shift(ShiftOp::Lsr, v, p).1 & FLAG_C != 0) == (v % 2 == 1)
            &&& alu_shift(ShiftOp::Lsr, v, p).1 & FLAG_N == 0
            &&& alu_shift(ShiftOp::Rol, v, p).0 == (2 * v + c) % 256
            &&& (alu_shift(ShiftOp::Rol, v, p).1 & FLAG_C != 0) == (v >= 128)
            &&& alu_shift(ShiftOp::Ror, v, p).0 == v / 2 + 128 * c
            &&& (alu_shift(ShiftOp::Ror, v, p).1 & FLAG_C != 0) == (v % 2 == 1)
        }),
{
    assert((v << 1u8) == (2 * v) % 256 && (v >> 1u8) == v / 2 && ((v << 1u8) | 1u8) == (2 * v + 1) % 256
        && ((v << 1u8) | 0u8) == (2 * v) % 256 && ((v >> 1u8) | 0x80u8) == v / 2 + 128 && ((v >> 1u8)
        | 0u8) == v / 2 && ((v & 0x80) != 0) == (v >= 128) && ((v & 0x01) != 0) == (v % 2 == 1))
        by (bit_vector);
    lemma_flags_disjoint();
    let c1 = with_bits(p, FLAG_C, v & 0x80 != 0);
    let c0 = with_bits(p, FLAG_C, v & 0x01 != 0);
    lemma_with_bits(p, FLAG_C, v & 0x80 != 0);
    lemma_with_bits(p, FLAG_C, v & 0x01 != 0);
    lemma_zn(c1, v << 1u8);
    lemma_zn(c1, (v << 1u8) | (if p & FLAG_C != 0 { 1u8 } else { 0u8 }));
    lemma_zn(c0, (v >> 1u8) | (if p & FLAG_C != 0 { 0x80u8 } else { 0u8 }));
    let r = v >> 1u8;
    let q1 = with_bits(c0, FLAG_Z, r == 0);
    lemma_with_bits_other(c0, FLAG_Z, r == 0, FLAG_C);
    lemma_with_bits_other(q1, FLAG_N, false, FLAG_C);
    lemma_with_bits(q1, FLAG_N, false);
}

/// INX adds one to X and DEX subtracts one, wrapping; TAX copies A into X;
/// all three take two cycles and set Z and N from the new X.
pub proof fn lemma_inx_dex_tax(s: CpuState)
    requires
        s.wf(),
    ensures
        ({
            let (t, c) = s.execute(0xE8);
            &&& c == 2 && t.x == (s.x + 1) % 256 && t.a == s.a && t.pc == s.pc
            &&& (t.p & FLAG_Z != 0) == (t.x == 0) && (t.p & FLAG_N != 0) == (t.x & 0x80 != 0)
        }),
        ({
            let (t, c) = s.execute(0xCA);
            &&& c == 2 && t.x == (s.x + 255) % 256 && t.a == s.a && t.pc == s.pc
            &&& (t.p & FLAG_Z != 0) == (t.x == 0) && (t.p & FLAG_N != 0) == (t.x & 0x80 != 0)
        }),
        ({
            let (t, c) = s.execute(0xAA);
            &&& c == 2 && t.x == s.a && t.a == s.a && t.pc == s.pc
            &&& (t.p & FLAG_Z != 0) == (s.a == 0) && (t.p & FLAG_N != 0) == (s.a & 0x80 != 0)
        }),
{
    reveal(spec_decode);
    reveal(CpuState::exec_step_reg);
    reveal(CpuState::exec_transfer);
    assert(spec_decode(0xE8) == (Opcode { instr: Instr::IncReg(Reg::X), mode: Mode::Implied, cycles: 2 }));
    assert(spec_decode(0xCA) == (Opcode { instr: Instr::DecReg(Reg::X), mode: Mode::Implied, cycles: 2 }));
    assert(spec_decode(0xAA) == (Opcode { instr: Instr::Transfer(Reg::A, Reg::X), mode: Mode::Implied, cycles: 2 }));
    lemma_zn(s.p, s.x.wrapping_add(1));
    lemma_zn(s.p, s.x.wrapping_sub(1));
    lemma_zn(s.p, s.a);
}

/// ASL A doubles the accumulator modulo 256 and LSR A halves it, each
/// moving the bit shifted out into C, in two cycles.
pub proof fn lemma_shift_accumulator(s: CpuState)
    requires
        s.wf(),
    ensures
        ({
            let (t, c) = s.execute(0x0A);
            &&& c == 2 && t.a == (2 * s.a) % 256 && (t.p & FLAG_C != 0) == (s.a >= 128) && t.pc == s.pc
        }),
        ({
            let (t, c) = s.execute(0x4A);
            &&& c == 2 && t.a == s.a / 2 && (t.p & FLAG_C != 0) == (s.a % 2 == 1) && t.pc == s.pc
        }),
{
    reveal(spec_decode);
    reveal(CpuState::exec_shift);
    assert(spec_decode(0x0A) == (Opcode { instr: Instr::Shift(ShiftOp::Asl), mode: Mode::Accumulator, cycles: 2 }));
    assert(spec_decode(0x4A) == (Opcode { instr: Instr::Shift(ShiftOp::Lsr), mode: Mode::Accumulator, cycles: 2 }));
    lemma_shift_values(s.a, s.p);
}

/// CMP immediate ($C9) sets C when A is at least the operand and Z when
/// they are equal, leaves A alone and steps past the operand, in two cycles.
pub proof fn lemma_cmp_immediate(s: CpuState)
    requires
        s.wf(),
    ensures
        ({
            let v = s.read(s.pc).1;
            let (t, c) = s.execute(0xC9);
            &&& c == 2 && t.a == s.a && t.pc == s.pc.wrapping_add(1)
            &&& (t.p & FLAG_C != 0) == (s.a >= v) && (t.p & FLAG_Z != 0) == (s.a == v)
        }),
{
    reveal(spec_decode);
    reveal(CpuState::exec_compare);
    assert(spec_decode(0xC9) == (Opcode { instr: Instr::Compare(Reg::A), mode: Mode::Immediate, cycles: 2 }));
    lemma_compare_flags(s.a, s.read(s.pc).1, s.p);
}

/// BEQ ($F0) and BNE ($D0) step past their offset byte and, when Z is set
/// (BEQ) or clear (BNE), jump by it, taking a third cycle.
pub proof fn lemma_beq_bne(s: CpuState)
    requires
        s.wf(),
    ensures
        ({
            let off = s.read(s.pc).1;
            let next = s.pc.wrapping_add(1);
            let z = s.p & FLAG_Z != 0;
            let (t, c) = s.execute(0xF0);
            let (u, d) = s.execute(0xD0);
            &&& t.pc == (if z { branch_target(next, off) } else { next }) && c == (if z { 3u8 } else { 2u8 })
            &&& u.pc == (if !z { branch_target(next, off) } else { next }) && d == (if !z { 3u8 } else { 2u8 })
            &&& t.a == s.a && t.p == s.p && u.a == s.a && u.p == s.p
        }),
{
    reveal(spec_decode);
    reveal(CpuState::exec_branch);
    assert(spec_decode(0xF0) == (Opcode { instr: Instr::Branch(FLAG_Z, true), mode: Mode::Immediate, cycles: 2 }));
    assert(spec_decode(0xD0) == (Opcode { instr: Instr::Branch(FLAG_Z, false), mode: Mode::Immediate, cycles: 2 }));
}

/// PPUCTRL's fields: bits 0-1 pick the name table at $2000 + $400 * n,
/// bit 2 makes PPUDATA step by 32 instead of 1, bits 3 and 4 put the sprite
/// and background patterns at $1000 instead of $0000.
pub proof fn lemma_ctrl_fields(bits: u8)
    ensures
        spec_nametable_addr(bits) == 0x2000 + 0x400 * (bits % 4),
        spec_vram_addr_increment(bits) == (if (bits / 4) % 2 == 1 { 32u8 } else { 1u8 }),
        spec_sprt_pattern_addr(bits) == (if (bits / 8) % 2 == 1 { 0x1000u16 } else { 0u16 }),
        spec_bknd_pattern_addr(bits) == (if (bits / 16) % 2 == 1 { 0x1000u16 } else { 0u16 }),
        spec_generate_vblank_nmi(bits) == (bits >= 128),
{
    assert((bits & 0x04 != 0) == ((bits / 4) % 2 == 1) && (bits & 0x08 != 0) == ((bits / 8) % 2 == 1)
        && (bits & 0x10 != 0) == ((bits / 16) % 2 == 1) && (bits & 0x80 != 0) == (bits >= 128))
        by (bit_vector);
}

/// CPU reads of the PPU registers: PPUSTATUS returns the status, clears
/// the vertical blank bit and resets the PPUADDR toggle; OAMDATA returns the
/// byte at OAMADDR and changes nothing; the write-only registers read as 0
/// and change nothing. Mirrors every 8 bytes behave alike.
pub proof fn lemma_ppu_register_reads(b: BusState, k: u16)
    requires
        b.wf(),
        !b.fault,
        k < 0x400,
    ensures
        b.read((0x2002 + 8 * k) as u16).1 == b.ppu.status,
        b.read((0x2002 + 8 * k) as u16).0.ppu.status & 0x80 == 0,
        b.read((0x2002 + 8 * k) as u16).0.ppu.status & 0x7f == b.ppu.status & 0x7f,
        b.read((0x2002 + 8 * k) as u16).0.ppu.addr.hi_ptr,
        b.read((0x2004 + 8 * k) as u16) == (b, b.ppu.oam_data[b.ppu.oam_addr as int]),
        b.read((0x2000 + 8 * k) as u16) == (b, 0u8),
        b.read((0x2001 + 8 * k) as u16) == (b, 0u8),
        b.read((0x2003 + 8 * k) as u16) == (b, 0u8),
        b.read((0x2005 + 8 * k) as u16) == (b, 0u8),
        b.read((0x2006 + 8 * k) as u16) == (b, 0u8),
{
    assert((0x2000 + 8 * k) % 8 == 0);
    assert((0x2001 + 8 * k) % 8 == 1);
    assert((0x2002 + 8 * k) % 8 == 2);
    assert((0x2003 + 8 * k) % 8 == 3);
    assert((0x2004 + 8 * k) % 8 == 4);
    assert((0x2005 + 8 * k) % 8 == 5);
    assert((0x2006 + 8 * k) % 8 == 6);
    let st = b.ppu.status;
    assert((st & !0x80u8) & 0x80 == 0 && (st & !0x80u8) & 0x7f == st & 0x7f) by (bit_vector);
}

/// OAM DMA ($4014) copies the 256 bytes of CPU page `page` into OAM: RAM
/// pages (mirrored every 2KB) and PRG ROM pages give their bytes, other
/// pages give 0.
pub proof fn lemma_oam_dma(b: BusState, page: u8, i: int)
    requires
        b.wf(),
        !b.fault,
        b.prg_rom.len() > 0,
        0 <= i < 256,
    ensures
        b.write(0x4014, page).ppu.oam_data.len() == 256,
        page < 0x20 ==> b.write(0x4014, page).ppu.oam_data[i] == b.ram[(page * 256 + i) % 0x800],
        0x20 <= page < 0x80 ==> b.write(0x4014, page).ppu.oam_data[i] == 0,
        page >= 0x80 ==> b.write(0x4014, page).ppu.oam_data[i] == b.read((page * 256 + i) as u16).1,
        b.write(0x4014, page).ram == b.ram,
{
}

/// A little-endian word: the high byte times 256 plus the low byte.
pub proof fn lemma_word(lo: u8, hi: u8)
    ensures
        word(lo, hi) == hi * 256 + lo,
        word(lo, hi) % 256 == lo,
        word(lo, hi) / 256 == hi,
{
}

/// Zero page addressing, with `z` the byte after the opcode: the operand
/// is at `z`, at `z + X` or at `z + Y`, wrapping within page 0; the program
/// counter steps past the one operand byte.
#[verifier::rlimit(100)]
pub proof fn lemma_zero_page_modes(s: CpuState)
    requires
        s.wf(),
    ensures
        ({
            let z = s.read(s.pc).1;
            &&& s.operand_addr(Mode::ZeroPage).1 == z as u16
            &&& s.operand_addr(Mode::ZeroPage).0.pc == s.pc.wrapping_add(1)
            &&& s.operand_addr(Mode::ZeroPageX).1 == (z + s.x) % 256
            &&& s.operand_addr(Mode::ZeroPageX).0.pc == s.pc.wrapping_add(1)
            &&& s.operand_addr(Mode::ZeroPageY).1 == (z + s.y) % 256
        }),
{
    let r1 = s.read(s.pc);
    let z = r1.1;
    assert(r1.0.pc == s.pc);
    assert(s.operand_addr(Mode::ZeroPage).1 == z as u16);
    assert(s.operand_addr(Mode::ZeroPage).0.pc == s.pc.wrapping_add(1));
    assert(s.operand_addr(Mode::ZeroPageX).1 == z.wrapping_add(s.x) as u16);
    assert(s.operand_addr(Mode::ZeroPageX).0.pc == s.pc.wrapping_add(1));
    assert(s.operand_addr(Mode::ZeroPageY).1 == z.wrapping_add(s.y) as u16);
}

/// Absolute addressing, with `lo` and `hi` the two bytes after the opcode:
/// the operand is at `hi * 256 + lo`, plus X or Y wrapping around the
/// address space; the program counter steps past both bytes.
#[verifier::rlimit(100)]
pub proof fn lemma_absolute_modes(s: CpuState)
    requires
        s.wf(),
    ensures
        ({
            let lo = s.read(s.pc).1;
            let s2 = s.read(s.pc).0.next_pc();
            let hi = s2.read(s2.pc).1;
            &&& s.operand_addr(Mode::Absolute).1 == hi * 256 + lo
            &&& s.operand_addr(Mode::Absolute).0.pc == s.pc.wrapping_add(2)
            &&& s.operand_addr(Mode::AbsoluteX).1 == (hi * 256 + lo + s.x) % 65536
            &&& s.operand_addr(Mode::AbsoluteY).1 == (hi * 256 + lo + s.y) % 65536
        }),
{
    let lo = s.read(s.pc).1;
    let s2 = s.read(s.pc).0.next_pc();
    let hi = s2.read(s2.pc).1;
    lemma_word(lo, hi);
}

/// Indexed indirect addressing, with `z` the byte after the opcode: (z,X)
/// takes the operand address from the two RAM bytes at `z + X` and after,
/// within page 0.
#[verifier::rlimit(100)]
pub proof fn lemma_indirect_x_mode(s: CpuState)
    requires
        s.wf(),
        !s.read(s.pc).0.fault(),
    ensures
        ({
            let z = s.read(s.pc).1;
            let ram = s.bus.ram;
            s.operand_addr(Mode::IndirectX).1 == ram[((z + s.x + 1) % 256) as int] * 256 + ram[((z
                + s.x) % 256) as int]
        }),
{
    lemma_read_keeps_ram(s.bus, s.pc);
    let r1 = s.read(s.pc);
    let s2 = r1.0.next_pc();
    let z = r1.1;
    let px = z.wrapping_add(s.x);
    let px1 = px.wrapping_add(1);
    assert(px as int == (z + s.x) % 256);
    assert(px1 as int == (z + s.x + 1) % 256);
    assert(s2.bus == r1.0.bus);
    let r3 = s2.read(px as u16);
    assert(r3.1 == s.bus.ram[px as int]);
    assert(r3.0 == s2);
    let r4 = r3.0.read(px1 as u16);
    assert(r4.1 == s.bus.ram[px1 as int]);
    assert(s.operand_addr(Mode::IndirectX).1 == word(r3.1, r4.1));
    lemma_word(r3.1, r4.1);
}

/// Indirect indexed addressing, with `z` the byte after the opcode: (z),Y
/// adds Y to the address held in the two RAM bytes at `z` and after,
/// within page 0.
#[verifier::rlimit(100)]
pub proof fn lemma_indirect_y_mode(s: CpuState)
    requires
        s.wf(),
        !s.read(s.pc).0.fault(),
    ensures
        ({
            let z = s.read(s.pc).1;
            let ram = s.bus.ram;
            s.operand_addr(Mode::IndirectY).1 == (ram[((z + 1) % 256) as int] * 256 + ram[z as int]
                + s.y) % 65536
        }),
{
    lemma_read_keeps_ram(s.bus, s.pc);
    let r1 = s.read(s.pc);
    let s2 = r1.0.next_pc();
    let z = r1.1;
    let z1 = z.wrapping_add(1);
    assert(z1 as int == (z + 1) % 256);
    assert(s2.bus == r1.0.bus);
    let r3 = s2.read(z as u16);
    assert(r3.1 == s.bus.ram[z as int]);
    assert(r3.0 == s2);
    let r4 = r3.0.read(z1 as u16);
    assert(r4.1 == s.bus.ram[z1 as int]);
    assert(s.operand_addr(Mode::IndirectY).1 == word(r3.1, r4.1).wrapping_add(s.y as u16));
    lemma_word(r3.1, r4.1);
}

/// STA zero page ($85) stores A in RAM at the operand byte.
#[verifier::rlimit(100)]
pub proof fn lemma_sta_zero_page(s: CpuState)
    requires
        s.wf(),
        !s.read(s.pc).0.fault(),
    ensures
        ({
            let z = s.read(s.pc).1;
            let (t, c) = s.execute(0x85);
            &&& c == 3 && t.bus.ram == s.bus.ram.update(z as int, s.a) && t.a == s.a
            &&& t.pc == s.pc.wrapping_add(1)
        }),
{
    reveal(spec_decode);
    reveal(CpuState::exec_store);
    assert(spec_decode(0x85) == (Opcode { instr: Instr::Store(Reg::A), mode: Mode::ZeroPage, cycles: 3 }));
    lemma_read_keeps_ram(s.bus, s.pc);
}

/// INC zero page ($E6) adds one, wrapping, to the RAM byte at the operand
/// byte and sets Z and N from the result.
#[verifier::rlimit(100)]
pub proof fn lemma_inc_zero_page(s: CpuState)
    requires
        s.wf(),
        !s.read(s.pc).0.fault(),
    ensures
        ({
            let z = s.read(s.pc).1;
            let (t, c) = s.execute(0xE6);
            let r = (s.bus.ram[z as int] + 1) % 256;
            &&& c == 5 && t.bus.ram == s.bus.ram.update(z as int, r as u8)
            &&& (t.p & FLAG_Z != 0) == (r == 0) && (t.p & FLAG_N != 0) == (r >= 128)
        }),
{
    reveal(spec_decode);
    reveal(CpuState::exec_step_mem);
    assert(spec_decode(0xE6) == (Opcode { instr: Instr::Inc, mode: Mode::ZeroPage, cycles: 5 }));
    lemma_read_keeps_ram(s.bus, s.pc);
    let z = s.read(s.pc).1;
    let v = s.bus.ram[z as int];
    let r = v.wrapping_add(1);
    lemma_zn(s.p, r);
    assert((r & 0x80 != 0) == (r >= 128)) by (bit_vector);
}

/// JMP absolute ($4C) continues at the word after the opcode.
pub proof fn lemma_jmp_absolute(s: CpuState)
    requires
        s.wf(),
    ensures
        ({
            let lo = s.read(s.pc).1;
            let s2 = s.read(s.pc).0.next_pc();
            let hi = s2.read(s2.pc).1;
            let (t, c) = s.execute(0x4C);
            &&& c == 3 && t.pc == hi * 256 + lo
        }),
{
    reveal(spec_decode);
    reveal(CpuState::exec_jmp);
    assert(spec_decode(0x4C) == (Opcode { instr: Instr::Jmp, mode: Mode::Absolute, cycles: 3 }));
    let lo = s.read(s.pc).1;
    let s2 = s.read(s.pc).0.next_pc();
    let hi = s2.read(s2.pc).1;
    lemma_word(lo, hi);
}

/// BRK pushes the address two past its opcode (high byte first) and the
/// status with B and bit 5 set, and sets I.
#[verifier::rlimit(100)]
pub proof fn lemma_brk(s: CpuState)
    requires
        s.wf(),
        !s.fault(),
        s.bus.prg_rom.len() > 0,
    ensures
        ({
            let (t, c) = s.execute(0x00);
            let ret = s.pc.wrapping_add(1);
            &&& c == 7
            &&& t.sp == s.sp.wrapping_sub(3)
            &&& t.bus.ram[0x100 + s.sp] == (ret >> 8u16) as u8
            &&& t.bus.ram[0x100 + s.sp.wrapping_sub(1)] == (ret & 0xff) as u8
            &&& t.bus.ram[0x100 + s.sp.wrapping_sub(2)] == s.p | 0x30
            &&& t.p & FLAG_I != 0
        }),
{
    reveal(spec_decode);
    reveal(CpuState::exec_brk);
    assert(spec_decode(0x00) == (Opcode { instr: Instr::Brk, mode: Mode::Implied, cycles: 7 }));
    let s1 = s.next_pc();
    let a = s1.push((s1.pc >> 8u16) as u8);
    let b = a.push((s1.pc & 0xFF) as u8);
    let c = b.push(b.p | 0x30);
    lemma_write_keeps(s1.bus, (0x100 + s1.sp) as u16, (s1.pc >> 8u16) as u8);
    lemma_write_keeps(a.bus, (0x100 + a.sp) as u16, (s1.pc & 0xFF) as u8);
    lemma_write_keeps(b.bus, (0x100 + b.sp) as u16, b.p | 0x30);
    assert(s1.pc == s.pc.wrapping_add(1));
    assert(c.bus.ram[0x100 + s.sp] == (s1.pc >> 8u16) as u8);
    assert(c.bus.ram[0x100 + s.sp.wrapping_sub(1)] == (s1.pc & 0xff) as u8);
    assert(c.bus.ram[0x100 + s.sp.wrapping_sub(2)] == s.p | 0x30);
    let d = c.with_p(with_bits(c.p, FLAG_I, true));
    lemma_with_bits(c.p, FLAG_I, true);
    let (e, lo) = d.read(IRQ_VECTOR);
    lemma_read_keeps_ram(d.bus, IRQ_VECTOR);
    lemma_read_keeps_ram(e.bus, 0xFFFF);
}

/// CMP, CPX and CPY set C when the register is at least the operand and Z
/// when they are equal.
pub proof fn lemma_compare_flags(r: u8, v: u8, p: u8)
    ensures
        (alu_compare(r, v, p) & FLAG_C != 0) == (r >= v),
        (alu_compare(r, v, p) & FLAG_Z != 0) == (r == v),
{
    lemma_flags_disjoint();
    let p1 = with_bits(p, FLAG_C, r >= v);
    let p2 = with_bits(p1, FLAG_Z, r == v);
    let n = r.wrapping_sub(v) & 0x80 != 0;
    lemma_with_bits(p, FLAG_C, r >= v);
    lemma_with_bits_other(p1, FLAG_Z, r == v, FLAG_C);
    lemma_with_bits_other(p2, FLAG_N, n, FLAG_C);
    lemma_with_bits(p1, FLAG_Z, r == v);
    lemma_with_bits_other(p2, FLAG_N, n, FLAG_Z);
}

/// ROR undoes ROL: rotating left through the carry and then right gives
/// back the value and the carry.
pub proof fn lemma_rol_ror(v: u8, p: u8)
    ensures
        ({
            let (r1, p1) = alu_shift(ShiftOp::Rol, v, p);
            let (r2, p2) = alu_shift(ShiftOp::Ror, r1, p1);
            r2 == v && (p2 & FLAG_C != 0) == (p & FLAG_C != 0)
        }),
{
    lemma_flags_disjoint();
    let c_in = p & FLAG_C != 0;
    let old_carry: u8 = if c_in { 1 } else { 0 };
    let r1 = (v << 1u8) | old_carry;
    let q1 = with_bits(p, FLAG_C, v & 0x80 != 0);
    let p1 = crate::cpu::zn(q1, r1);
    lemma_with_bits(p, FLAG_C, v & 0x80 != 0);
    lemma_with_bits_other(q1, FLAG_Z, r1 == 0, FLAG_C);
    lemma_with_bits_other(with_bits(q1, FLAG_Z, r1 == 0), FLAG_N, r1 & 0x80 != 0, FLAG_C);
    let back: u8 = if p1 & FLAG_C != 0 { 0x80 } else { 0 };
    assert(old_carry <= 1 ==> ((((v << 1u8) | old_carry) >> 1u8) | (if v & 0x80 != 0 { 0x80u8 } else { 0u8 })) == v)
        by (bit_vector);
    let q2 = with_bits(p1, FLAG_C, r1 & 0x01 != 0);
    lemma_with_bits(p1, FLAG_C, r1 & 0x01 != 0);
    let r2 = (r1 >> 1u8) | back;
    lemma_with_bits_other(q2, FLAG_Z, r2 == 0, FLAG_C);
    lemma_with_bits_other(with_bits(q2, FLAG_Z, r2 == 0), FLAG_N, r2 & 0x80 != 0, FLAG_C);
    assert(old_carry <= 1 ==> ((((v << 1u8) | old_carry) & 0x01 != 0) == (old_carry == 1))) by (bit_vector);
}

/// A taken branch moves the program counter by the offset byte read as a
/// signed number, wrapping around the address space.
pub proof fn lemma_branch_target(pc: u16, offset: u8)
    ensures
        branch_target(pc, offset) == (pc + (if offset < 128 { offset as int } else { offset - 256 })) % 0x10000,
{
}

/// Colour number of a pattern pixel: bit `7 - x` of the row's first plane
/// byte is its low bit and the same bit of the byte eight further on is its
/// high bit, so column 0 is the most significant bit.
#[verifier::rlimit(100)]
pub proof fn lemma_tile_value_planes(chr: Seq<u8>, start: int, x: int, y: int)
    requires
        0 <= x < 8,
        0 <= start + y,
        start + y + 8 < chr.len(),
    ensures
        tile_value(chr, start, x, y) == 2 * ((chr[start + y + 8] as nat / pow2((7 - x) as nat)) % 2) + (
        chr[start + y] as nat / pow2((7 - x) as nat)) % 2,
{
    let lo = chr[start + y];
    let hi = chr[start + y + 8];
    let k = (7 - x) as u8;
    lemma_u8_shr_is_div(lo, k);
    lemma_u8_shr_is_div(hi, k);
    let a = lo >> k;
    let b = hi >> k;
    assert(a & 1 == a % 2 && b & 1 == b % 2) by (bit_vector);
}

/// A sprite's attribute byte: bit 7 flips it vertically, bit 6
/// horizontally, bit 5 puts it behind the background, and bits 0-1 pick
/// its palette, whose colours 1-3 are palette entries $11-$13, $15-$17,
/// $19-$1B or $1D-$1F. Flipping horizontally shows column `7 - dx` at
/// offset `dx`.
#[verifier::rlimit(100)]
pub proof fn lemma_sprite_attributes(p: PpuState, k: int, v: int, dx: int, dy: int)
    requires
        0 <= k,
        4 * k + 2 < p.oam_data.len(),
        1 <= v <= 3,
    ensures
        sprite_flip_vertical(p, k) == (oam_byte(p, k, 2) & 0x80 != 0),
        sprite_flip_horizontal(p, k) == (oam_byte(p, k, 2) & 0x40 != 0),
        sprite_behind(p, k) == (oam_byte(p, k, 2) & 0x20 != 0),
        sprite_color_index(p, k, v) == p.palette_table[0x10 + 4 * (oam_byte(p, k, 2) % 4) + v],
        sprite_texel(p, k, dx, dy).0 == if oam_byte(p, k, 2) & 0x40 != 0 { 7 - dx } else { dx },
{
    let a = oam_byte(p, k, 2);
    assert(((a >> 7u8) & 1 == 1) == (a & 0x80 != 0) && ((a >> 6u8) & 1 == 1) == (a & 0x40 != 0) && ((a
        >> 5u8) & 1 == 1) == (a & 0x20 != 0) && a & 0b11 == a % 4) by (bit_vector);
}

proof fn lemma_top_sprite_from(p: PpuState, row: int, col: int, k: int)
    requires
        0 <= k <= 64,
    ensures
        match top_sprite(p, row, col, k) {
            Some(j) => k <= j < 64 && sprite_covers(p, j, row, col) && forall|i: int|
                k <= i < j ==> !sprite_covers(p, i, row, col),
            None => forall|i: int| k <= i < 64 ==> !sprite_covers(p, i, row, col),
        },
    decreases 64 - k,
{
    if k < 64 && !sprite_covers(p, k, row, col) {
        lemma_top_sprite_from(p, row, col, k + 1);
    }
}

/// Sprite priority: a pixel that no sprite paints shows the background; of
/// the sprites that paint it the lowest-numbered one shows, unless it is
/// behind the background and the background there is opaque.
#[verifier::rlimit(100)]
pub proof fn lemma_sprite_priority(p: PpuState, row: int, col: int, k: int)
    ensures
        (forall|i: int| 0 <= i < 64 ==> !sprite_covers(p, i, row, col)) ==> render_pixel(p, row, col)
            == bg_pixel(p, row, col),
        0 <= k < 64 && sprite_covers(p, k, row, col) && (forall|i: int|
            0 <= i < k ==> !sprite_covers(p, i, row, col)) ==> render_pixel(p, row, col) == if sprite_behind(
            p,
            k,
        ) && bg_opaque(p, row, col) {
            bg_pixel(p, row, col)
        } else {
            sprite_rgb(p, k, row, col)
        },
{
    lemma_top_sprite_from(p, row, col, 0);
}

/// Without scrolling and with name table $2000 latched, screen pixel
/// (`row`, `col`) shows pixel (`col`, `row`) of the first name table,
/// whichever the mirroring.
#[verifier::rlimit(100)]
pub proof fn lemma_bg_unscrolled(p: PpuState, row: int, col: int)
    requires
        p.scroll.scroll_x == 0,
        p.scroll.scroll_y == 0,
        p.latched_nametable_addr == 0x2000,
        0 <= row < 240,
        0 <= col < 256,
        bg_has_data(p, 0, col, row),
    ensures
        bg_pixel(p, row, col) == spec_system_palette(bg_color_index(p, 0, col, row)),
{
}

/// Horizontal scrolling with vertical mirroring and name table $2000
/// latched: screen column `col` shows column `col + sx` of the first name
/// table, and past its right edge column `col + sx - 256` of the second.
#[verifier::rlimit(100)]
pub proof fn lemma_bg_scroll_x(p: PpuState, row: int, col: int)
    requires
        p.mirroring is VERTICAL,
        p.scroll.scroll_y == 0,
        p.latched_nametable_addr == 0x2000,
        0 <= row < 240,
        0 <= col < 256,
    ensures
        ({
            let sx = p.scroll.scroll_x as int;
            &&& col + sx < 256 && bg_has_data(p, 0, col + sx, row) ==> bg_pixel(p, row, col)
                == spec_system_palette(bg_color_index(p, 0, col + sx, row))
            &&& col + sx >= 256 && bg_has_data(p, 0x400, col + sx - 256, row) ==> bg_pixel(p, row, col)
                == spec_system_palette(bg_color_index(p, 0x400, col + sx - 256, row))
        }),
{
}

/// Vertical scrolling with horizontal mirroring and name table $2000
/// latched: screen row `row` shows row `row + sy` of the first name table,
/// and below its bottom edge row `row + sy - 240` of the second.
#[verifier::rlimit(100)]
pub proof fn lemma_bg_scroll_y(p: PpuState, row: int, col: int)
    requires
        p.mirroring is HORIZONTAL,
        p.scroll.scroll_x == 0,
        p.latched_nametable_addr == 0x2000,
        0 <= row < 240,
        0 <= col < 256,
    ensures
        ({
            let sy = p.scroll.scroll_y as int;
            &&& row + sy < 240 && bg_has_data(p, 0, col, row + sy) ==> bg_pixel(p, row, col)
                == spec_system_palette(bg_color_index(p, 0, col, row + sy))
            &&& 240 <= row + sy < 480 && bg_has_data(p, 0x400, col, row + sy - 240) ==> bg_pixel(p, row, col)
                == spec_system_palette(bg_color_index(p, 0x400, col, row + sy - 240))
        }),
{
}

/// An iNES image loads exactly when it holds the 16-byte header with the
/// signature "NES" $1A and all the data the header announces: a 512-byte
/// trainer when flags 6 bit 2 is set, then 16KB of PRG ROM per unit of byte
/// 4, then 8KB of CHR ROM per unit of byte 5. A short header or short data
/// is reported as an early end of the image, a wrong signature as such.
#[verifier::rlimit(100)]
pub proof fn lemma_ines_load_succeeds(b: Seq<u8>)
    ensures
        load_error(b) is None <==> (b.len() >= 16 && b[0] == 0x4e && b[1] == 0x45 && b[2] == 0x53 && b[3]
            == 0x1a && b.len() >= 16 + (if b[6] & 0x04 != 0 { 512int } else { 0 }) + 16384 * b[4] + 8192 * b[5]),
        b.len() < 16 ==> load_error(b) == Some(RomError::UnexpectedEof),
        b.len() >= 16 && !(b[0] == 0x4e && b[1] == 0x45 && b[2] == 0x53 && b[3] == 0x1a) ==> load_error(b)
            == Some(RomError::InvalidSignature),
{
}

/// A loaded image's PRG ROM is the image's bytes after the header and the
/// trainer, 16KB per unit of byte 4, and its CHR ROM the bytes after those,
/// 8KB per unit of byte 5; flags 6 bits 0-3 give vertical mirroring,
/// battery, trainer and four-screen mode.
#[verifier::rlimit(100)]
pub proof fn lemma_ines_sections(rom: RomLoader, b: Seq<u8>, i: int)
    requires
        load_error(b) is None,
        rom.loaded_from(b),
    ensures
        ({
            let t = if b[6] & 0x04 != 0 { 512int } else { 0 };
            &&& rom.prg_rom@.len() == 16384 * b[4] && rom.chr_rom@.len() == 8192 * b[5]
            &&& 0 <= i < 16384 * b[4] ==> rom.prg_rom@[i] == b[16 + t + i]
            &&& 0 <= i < 8192 * b[5] ==> rom.chr_rom@[i] == b[16 + t + 16384 * b[4] + i]
            &&& rom.vertical_mirroring == (b[6] & 0x01 != 0) && rom.has_battery == (b[6] & 0x02 != 0)
            &&& rom.has_trainer == (t == 512) && rom.four_screen_mode == (b[6] & 0x08 != 0)
        }),
{
}

/// JMP indirect ($6C) through a pointer in RAM continues at the word the
/// pointer holds; a pointer at the last byte of a page takes its high byte
/// from the first byte of that same page.
#[verifier::rlimit(100)]
pub proof fn lemma_jmp_indirect(s: CpuState)
    requires
        s.wf(),
        !s.operand_addr(Mode::Absolute).0.fault(),
    ensures
        ({
            let ptr = s.operand_addr(Mode::Absolute).1 as int;
            let ram = s.bus.ram;
            let hi_at = if ptr % 256 == 255 { ptr - 255 } else { ptr + 1 };
            let (t, c) = s.execute(0x6C);
            ptr < 0x2000 ==> c == 5 && t.pc == ram[hi_at % 0x800] * 256 + ram[ptr % 0x800]
        }),
{
    reveal(spec_decode);
    reveal(CpuState::exec_jmp_indirect);
    assert(spec_decode(0x6C) == (Opcode { instr: Instr::JmpIndirect, mode: Mode::Absolute, cycles: 5 }));
    let (s1, ptr) = s.operand_addr(Mode::Absolute);
    if ptr < 0x2000 {
        lemma_read_keeps_ram(s.bus, s.pc);
        let r0 = s.read(s.pc);
        let s2 = r0.0.next_pc();
        lemma_read_keeps_ram(s2.bus, s2.pc);
        assert(s1.bus.ram == s.bus.ram);
        let (s2, lo) = s1.read(ptr);
        assert(lo == s.bus.ram[(ptr % 0x800) as int]);
        assert(s2 == s1);
        let hi_addr = if ptr & 0xFF == 0xFF { ptr & 0xFF00 } else { ptr.wrapping_add(1) };
        assert((ptr & 0xFF == 0xFF) == (ptr % 256 == 255) && (ptr & 0xFF == 0xFF ==> ptr & 0xFF00 == ptr
            - 255)) by (bit_vector);
        assert(hi_addr < 0x2000);
        let (s3, hi) = s2.read(hi_addr);
        assert(hi == s.bus.ram[(hi_addr % 0x800) as int]);
        lemma_word(lo, hi);
    }
}

/// CLC, SEC, CLI, SEI, CLV, CLD and SED clear or set one bit of P (C is
/// bit 0, I bit 2, D bit 3, V bit 6) and leave the other bits and the
/// registers as they were.
#[verifier::rlimit(100)]
pub proof fn lemma_flag_instructions(s: CpuState)
    requires
        s.wf(),
    ensures
        s.execute(0x18) == (CpuState { p: s.p & 0xFE, ..s }, 2u8),
        s.execute(0x38) == (CpuState { p: s.p | 0x01, ..s }, 2u8),
        s.execute(0x58) == (CpuState { p: s.p & 0xFB, ..s }, 2u8),
        s.execute(0x78) == (CpuState { p: s.p | 0x04, ..s }, 2u8),
        s.execute(0xB8) == (CpuState { p: s.p & 0xBF, ..s }, 2u8),
        s.execute(0xD8) == (CpuState { p: s.p & 0xF7, ..s }, 2u8),
        s.execute(0xF8) == (CpuState { p: s.p | 0x08, ..s }, 2u8),
{
    reveal(spec_decode);
    let p = s.p;
    assert(p & !0x01u8 == p & 0xFE && p & !0x04u8 == p & 0xFB && p & !0x40u8 == p & 0xBF && p & !0x08u8
        == p & 0xF7) by (bit_vector);
}

/// Where a branch goes: past its offset byte when not taken (two cycles),
/// to the target the offset gives when taken (three cycles).
pub open spec fn branch_outcome(s: CpuState, taken: bool) -> (u16, u8) {
    let next = s.pc.wrapping_add(1);
    if taken {
        (branch_target(next, s.read(s.pc).1), 3u8)
    } else {
        (next, 2u8)
    }
}

/// BCS and BCC branch on C (bit 0), BMI and BPL on N (bit 7), BVS and BVC
/// on V (bit 6), the first of each pair when the flag is set.
#[verifier::rlimit(100)]
pub proof fn lemma_flag_branches(s: CpuState)
    requires
        s.wf(),
    ensures
        ({
            let c = s.p & 0x01 != 0;
            let n = s.p & 0x80 != 0;
            let v = s.p & 0x40 != 0;
            &&& (s.execute(0xB0).0.pc, s.execute(0xB0).1) == branch_outcome(s, c)
            &&& (s.execute(0x90).0.pc, s.execute(0x90).1) == branch_outcome(s, !c)
            &&& (s.execute(0x30).0.pc, s.execute(0x30).1) == branch_outcome(s, n)
            &&& (s.execute(0x10).0.pc, s.execute(0x10).1) == branch_outcome(s, !n)
            &&& (s.execute(0x70).0.pc, s.execute(0x70).1) == branch_outcome(s, v)
            &&& (s.execute(0x50).0.pc, s.execute(0x50).1) == branch_outcome(s, !v)
        }),
{
    reveal(spec_decode);
    reveal(CpuState::exec_branch);
}

/// TAY, TXA, TYA and TSX copy one register into another and set Z and N
/// from the value; TXS copies X into the stack pointer and leaves P alone;
/// INY and DEY step Y up or down, wrapping, and set Z and N.
#[verifier::rlimit(100)]
pub proof fn lemma_register_transfers(s: CpuState)
    requires
        s.wf(),
    ensures
        s.execute(0xA8) == (CpuState { y: s.a, p: zn(s.p, s.a), ..s }, 2u8),
        s.execute(0x8A) == (CpuState { a: s.x, p: zn(s.p, s.x), ..s }, 2u8),
        s.execute(0x98) == (CpuState { a: s.y, p: zn(s.p, s.y), ..s }, 2u8),
        s.execute(0xBA) == (CpuState { x: s.sp, p: zn(s.p, s.sp), ..s }, 2u8),
        s.execute(0x9A) == (CpuState { sp: s.x, ..s }, 2u8),
        s.execute(0xC8) == (CpuState { y: ((s.y + 1) % 256) as u8, p: zn(s.p, ((s.y + 1) % 256) as u8), ..s }, 2u8),
        s.execute(0x88) == (CpuState { y: ((s.y + 255) % 256) as u8, p: zn(s.p, ((s.y + 255) % 256) as u8), ..s }, 2u8),
{
    reveal(spec_decode);
    reveal(CpuState::exec_step_reg);
    reveal(CpuState::exec_transfer);
}

/// RTI at the start of an NMI handler returns to where the NMI struck: the
/// program counter and stack pointer come back, and P comes back with B
/// clear and bit 5 set.
#[verifier::rlimit(100)]
pub proof fn lemma_nmi_rti(s: CpuState)
    requires
        s.wf(),
        !s.fault(),
        s.bus.prg_rom.len() > 0,
    ensures
        s.nmi().0.exec_rti().pc == s.pc,
        s.nmi().0.exec_rti().sp == s.sp,
        s.nmi().0.exec_rti().p == (s.p | 0x20) & 0xEF,
{
    reveal(CpuState::exec_rti);
    let hi = (s.pc >> 8u16) as u8;
    let lo = (s.pc & 0xff) as u8;
    let s1 = s.push(hi);
    let s2 = s1.push(lo);
    let flag = with_bits(with_bits(s2.p, FLAG_B, false), FLAG_U, true);
    let s3 = s2.push(flag);
    lemma_write_keeps(s.bus, (0x100 + s.sp) as u16, hi);
    lemma_write_keeps(s1.bus, (0x100 + s1.sp) as u16, lo);
    lemma_write_keeps(s2.bus, (0x100 + s2.sp) as u16, flag);
    let ram = s.bus.ram.update(0x100 + s.sp, hi).update(0x100 + s1.sp, lo).update(0x100 + s2.sp, flag);
    assert(s3.bus.ram == ram);
    let u = s.nmi().0;
    assert(u.bus.ram == ram);
    assert(u.sp == s3.sp);
    assert(!u.fault());
    let (v1, f) = u.pop();
    assert(v1.sp == s2.sp);
    assert(f == flag);
    let v2 = v1.with_p(f & !FLAG_B);
    let (v3, l) = v2.pop();
    assert(v3.sp == s1.sp);
    assert(l == lo);
    let (v4, h) = v3.pop();
    assert(v4.sp == s.sp);
    assert(h == hi);
    lemma_word(lo, hi);
    let pc = s.pc;
    let p = s.p;
    assert(((pc >> 8u16) as u8) as u16 * 256 + ((pc & 0xff) as u8) as u16 == pc
        && ((p & !0x10u8) | 0x20u8) & !0x10u8 == (p | 0x20) & 0xEF) by (bit_vector);
}

/// PPUDATA reads below the palette answer one read late: each returns the
/// byte the previous read fetched and keeps the byte at the current address
/// for the next; palette reads answer at once. Either way the address then
/// moves on by 1, or by 32 when PPUCTRL bit 2 is set, and memory is left
/// as it was.
pub proof fn lemma_read_data_buffered(p: PpuState)
    requires
        p.wf(),
        !p.read_data_faults(),
    ensures
        ({
            let a = p.addr.get();
            let (q, r) = p.read_data();
            &&& q.addr.get() == (a + if (p.ctrl / 4) % 2 == 1 { 32int } else { 1 }) % 0x4000
            &&& q.vram == p.vram && q.palette_table == p.palette_table && q.chr_rom == p.chr_rom
            &&& a < 0x2000 ==> r == p.internal_data_buf && q.internal_data_buf == p.chr_rom[a as int]
            &&& 0x2000 <= a < 0x3f00 ==> r == p.internal_data_buf && q.internal_data_buf
                == p.vram[spec_mirror_vram_addr(p.mirroring, a) as int]
            &&& a >= 0x3f00 ==> r == p.palette_table[PpuState::palette_index(a)]
        }),
{
    lemma_ctrl_fields(p.ctrl);
    crate::add_register::lemma_increment_get(p.addr, spec_vram_addr_increment(p.ctrl));
}

} // verus!
