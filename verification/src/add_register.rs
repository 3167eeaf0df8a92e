use vstd::prelude::*;

verus! {

/// The PPUADDR register ($2006): a 14-bit VRAM address written one byte at a
/// time, high byte first.
pub struct AddrRegister {
    pub hi: u8,
    pub lo: u8,
    pub hi_ptr: bool,
}

/// Mathematical value of the address register.
pub struct AddrState {
    pub hi: u8,
    pub lo: u8,
    pub hi_ptr: bool,
}

impl View for AddrRegister {
    type V = AddrState;

    open spec fn view(&self) -> AddrState {
        AddrState { hi: self.hi, lo: self.lo, hi_ptr: self.hi_ptr }
    }
}

impl AddrState {
    /// The address never leaves the PPU's 16KB address space.
    pub open spec fn wf(self) -> bool {
        self.hi < 0x40
    }

    pub open spec fn get(self) -> u16 {
        (self.hi * 256 + self.lo) as u16
    }

    /// A write sets the high byte when the pointer is on it, else the low byte;
    /// the address is then mirrored down into $0000-$3FFF.
    pub open spec fn update(self, data: u8) -> AddrState {
        if self.hi_ptr {
            AddrState { hi: data % 64, lo: self.lo, hi_ptr: false }
        } else {
            AddrState { hi: self.hi % 64, lo: data, hi_ptr: true }
        }
    }

    /// Adds `inc` to the low byte, carries into the high byte, and mirrors
    /// the result into $0000-$3FFF.
    pub open spec fn increment(self, inc: u8) -> AddrState {
        let carry = self.lo + inc >= 256;
        AddrState {
            hi: ((if carry { self.hi + 1 } else { self.hi as int }) % 64) as u8,
            lo: ((self.lo + inc) % 256) as u8,
            hi_ptr: self.hi_ptr,
        }
    }
}

proof fn lemma_get_bits(hi: u8, lo: u8)
    ensures
        ((hi as u16) << 8u16) | (lo as u16) == hi * 256 + lo,
{
    assert(((hi as u16) << 8u16) | (lo as u16) == hi * 256 + lo) by (bit_vector);
}

impl AddrRegister {
    pub fn new() -> (r: Self)
        ensures
            r@ == (AddrState { hi: 0, lo: 0, hi_ptr: true }),
    {
        AddrRegister { hi: 0, lo: 0, hi_ptr: true }
    }

    pub fn get(&self) -> (r: u16)
        requires
            self@.wf(),
        ensures
            r == self@.get(),
            r <= 0x3fff,
    {
        proof {
            lemma_get_bits(self.hi, self.lo);
        }
        ((self.hi as u16) << 8u16) | (self.lo as u16)
    }

    pub fn update(&mut self, data: u8)
        ensures
            final(self)@ == old(self)@.update(data),
            final(self)@.wf(),
    {
        if self.hi_ptr {
            self.hi = data;
        } else {
            self.lo = data;
        }
        let h = self.hi;
        assert(h & 0x3f == h % 64) by (bit_vector);
        self.hi = h & 0x3f;
        self.hi_ptr = !self.hi_ptr;
    }

    pub fn increment(&mut self, inc: u8)
        requires
            old(self)@.wf(),
        ensures
            final(self)@ == old(self)@.increment(inc),
            final(self)@.wf(),
    {
        let lo = self.lo;
        self.lo = self.lo.wrapping_add(inc);
        if lo > self.lo {
            self.hi = self.hi.wrapping_add(1);
        }
        let h = self.hi;
        assert(h & 0x3f == h % 64) by (bit_vector);
        self.hi = h & 0x3f;
    }

    pub fn reset_latch(&mut self)
        ensures
            final(self)@ == (AddrState { hi_ptr: true, ..old(self)@ }),
    {
        self.hi_ptr = true;
    }
}

/// Law: incrementing moves the address forward by `inc`, wrapping within
/// the PPU address space.
pub proof fn lemma_increment_get(s: AddrState, inc: u8)
    requires
        s.wf(),
    ensures
        s.increment(inc).get() == (s.get() + inc) % 0x4000,
        s.increment(inc).wf(),
        s.increment(inc).hi_ptr == s.hi_ptr,
{
    let carry = s.lo + inc >= 256;
    if carry {
        if s.hi == 63 {
            assert(s.increment(inc).get() == s.lo + inc - 256);
        } else {
            assert(s.increment(inc).get() == (s.hi + 1) * 256 + s.lo + inc - 256);
        }
    } else {
        assert(s.increment(inc).get() == s.hi * 256 + s.lo + inc);
    }
}

/// Law: after the pointer is reset, two writes set the full address, high
/// byte first, mirrored into the PPU address space.
pub proof fn lemma_addr_write_pair(s: AddrState, hi: u8, lo: u8)
    requires
        s.hi_ptr,
    ensures
        s.update(hi).update(lo).get() == (hi * 256 + lo) % 0x4000,
        s.update(hi).update(lo).hi_ptr,
        s.update(hi).update(lo).wf(),
{
    assert((hi % 64) % 64 == hi % 64);
    assert((hi % 64) * 256 + lo == (hi * 256 + lo) % 0x4000) by (nonlinear_arith)
        requires lo < 256;
}

} // verus!
