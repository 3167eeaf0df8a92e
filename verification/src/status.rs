use vstd::prelude::*;

verus! {

/// Bit of PPUSTATUS set when a sprite overflow occurred.
pub const STATUS_SPRITE_OVERFLOW: u8 = 0x20;
/// Bit of PPUSTATUS set on a sprite 0 hit.
pub const STATUS_SPRITE_ZERO_HIT: u8 = 0x40;
/// Bit of PPUSTATUS set while in vertical blank.
pub const STATUS_VBLANK_STARTED: u8 = 0x80;

/// A byte with the bits of `mask` set when `value` holds and cleared otherwise.
pub open spec fn with_bits(bits: u8, mask: u8, value: bool) -> u8 {
    if value { bits | mask } else { bits & !mask }
}

/// Computes `with_bits`.
pub fn set_bits(bits: u8, mask: u8, value: bool) -> (r: u8)
    ensures
        r == with_bits(bits, mask, value),
{
    if value {
        bits | mask
    } else {
        bits & !mask
    }
}

/// Law: setting or clearing the bits of a mask leaves every other bit as it
/// was and makes the masked bits read back as the value.
pub proof fn lemma_with_bits(bits: u8, mask: u8, value: bool)
    ensures
        with_bits(bits, mask, value) & !mask == bits & !mask,
        (with_bits(bits, mask, value) & mask != 0) == (value && mask != 0),
{
    if value {
        assert((bits | mask) & !mask == bits & !mask && ((bits | mask) & mask != 0) == (mask != 0))
            by (bit_vector);
    } else {
        assert((bits & !mask) & !mask == bits & !mask && (bits & !mask) & mask == 0) by (bit_vector);
    }
}

/// The PPUSTATUS register ($2002).
pub struct StatusRegister {
    pub bits: u8,
}

impl StatusRegister {
    pub fn new() -> (r: Self)
        ensures
            r.bits == 0,
    {
        StatusRegister { bits: 0 }
    }

    pub fn set_vblank_status(&mut self, status: bool)
        ensures
            final(self).bits == with_bits(old(self).bits, STATUS_VBLANK_STARTED, status),
    {
        self.bits = set_bits(self.bits, STATUS_VBLANK_STARTED, status);
    }

    pub fn set_sprite_zero_hit(&mut self, status: bool)
        ensures
            final(self).bits == with_bits(old(self).bits, STATUS_SPRITE_ZERO_HIT, status),
    {
        self.bits = set_bits(self.bits, STATUS_SPRITE_ZERO_HIT, status);
    }

    pub fn set_sprite_overflow(&mut self, status: bool)
        ensures
            final(self).bits == with_bits(old(self).bits, STATUS_SPRITE_OVERFLOW, status),
    {
        self.bits = set_bits(self.bits, STATUS_SPRITE_OVERFLOW, status);
    }

    pub fn reset_vblank_status(&mut self)
        ensures
            final(self).bits == with_bits(old(self).bits, STATUS_VBLANK_STARTED, false),
    {
        self.bits = set_bits(self.bits, STATUS_VBLANK_STARTED, false);
    }

    pub fn is_in_vblank(&self) -> (r: bool)
        ensures
            r == (self.bits & STATUS_VBLANK_STARTED != 0),
    {
        self.bits & STATUS_VBLANK_STARTED != 0
    }

    pub fn snapshot(&self) -> (r: u8)
        ensures
            r == self.bits,
    {
        self.bits
    }
}

} // verus!
