use vstd::prelude::*;

verus! {

/// Bit of PPUCTRL selecting the VRAM address step (1 or 32).
pub const CTRL_VRAM_ADD_INCREMENT: u8 = 0x04;
/// Bit of PPUCTRL selecting the sprite pattern table.
pub const CTRL_SPRITE_PATTERN_ADDR: u8 = 0x08;
/// Bit of PPUCTRL selecting the background pattern table.
pub const CTRL_BACKGROUND_PATTERN_ADDR: u8 = 0x10;
/// Bit of PPUCTRL selecting 8x16 sprites.
pub const CTRL_SPRITE_SIZE: u8 = 0x20;
/// Bit of PPUCTRL asking for an NMI at the start of vertical blank.
pub const CTRL_GENERATE_NMI: u8 = 0x80;

/// The PPUCTRL register ($2000).
pub struct ControlRegister {
    pub bits: u8,
}

pub open spec fn has_bit(bits: u8, mask: u8) -> bool {
    bits & mask != 0
}

/// Step added to the VRAM address after each PPUDATA access.
pub open spec fn spec_vram_addr_increment(bits: u8) -> u8 {
    if has_bit(bits, CTRL_VRAM_ADD_INCREMENT) { 32 } else { 1 }
}

pub open spec fn spec_generate_vblank_nmi(bits: u8) -> bool {
    has_bit(bits, CTRL_GENERATE_NMI)
}

pub open spec fn spec_bknd_pattern_addr(bits: u8) -> u16 {
    if has_bit(bits, CTRL_BACKGROUND_PATTERN_ADDR) { 0x1000 } else { 0 }
}

pub open spec fn spec_sprt_pattern_addr(bits: u8) -> u16 {
    if has_bit(bits, CTRL_SPRITE_PATTERN_ADDR) { 0x1000 } else { 0 }
}

/// Base address of the name table selected by the two low bits.
pub open spec fn spec_nametable_addr(bits: u8) -> u16 {
    let n = bits % 4;
    if n == 0 {
        0x2000
    } else if n == 1 {
        0x2400
    } else if n == 2 {
        0x2800
    } else {
        0x2c00
    }
}

impl ControlRegister {
    pub fn new() -> (r: Self)
        ensures
            r.bits == 0,
    {
        ControlRegister { bits: 0 }
    }

    pub fn update(&mut self, data: u8)
        ensures
            final(self).bits == data,
    {
        self.bits = data;
    }

    pub fn vram_addr_increment(&self) -> (r: u8)
        ensures
            r == spec_vram_addr_increment(self.bits),
    {
        if self.bits & CTRL_VRAM_ADD_INCREMENT != 0 {
            32
        } else {
            1
        }
    }

    pub fn generate_vblank_nmi(&self) -> (r: bool)
        ensures
            r == spec_generate_vblank_nmi(self.bits),
    {
        self.bits & CTRL_GENERATE_NMI != 0
    }

    pub fn bknd_pattern_addr(&self) -> (r: u16)
        ensures
            r == spec_bknd_pattern_addr(self.bits),
    {
        if self.bits & CTRL_BACKGROUND_PATTERN_ADDR != 0 {
            0x1000
        } else {
            0
        }
    }

    pub fn sprt_pattern_addr(&self) -> (r: u16)
        ensures
            r == spec_sprt_pattern_addr(self.bits),
    {
        if self.bits & CTRL_SPRITE_PATTERN_ADDR != 0 {
            0x1000
        } else {
            0
        }
    }

    pub fn nametable_addr(&self) -> (r: u16)
        ensures
            r == spec_nametable_addr(self.bits),
    {
        let b = self.bits;
        let n = b & 0b11;
        assert(b & 0b11 == b % 4) by (bit_vector);
        if n == 0 {
            0x2000
        } else if n == 1 {
            0x2400
        } else if n == 2 {
            0x2800
        } else {
            0x2c00
        }
    }

    /// Height of sprites in pixels.
    pub fn sprite_size(&self) -> (r: u8)
        ensures
            r == (if has_bit(self.bits, CTRL_SPRITE_SIZE) { 16u8 } else { 8u8 }),
    {
        if self.bits & CTRL_SPRITE_SIZE != 0 {
            16
        } else {
            8
        }
    }
}

} // verus!
