use vstd::prelude::*;

verus! {

/// The PPUSCROLL register. Writes alternate between the horizontal and the
/// vertical scroll value; they are held in temporary storage and only become
/// visible to rendering when latched (at the start of vertical blank).
pub struct ScrollRegister {
    pub scroll_x: u8,
    pub scroll_y: u8,
    pub latch: bool,
    pub temp_x: u8,
    pub temp_y: u8,
}

/// Mathematical value of a scroll register.
pub struct ScrollState {
    pub scroll_x: u8,
    pub scroll_y: u8,
    pub latch: bool,
    pub temp_x: u8,
    pub temp_y: u8,
}

impl View for ScrollRegister {
    type V = ScrollState;

    open spec fn view(&self) -> ScrollState {
        ScrollState {
            scroll_x: self.scroll_x,
            scroll_y: self.scroll_y,
            latch: self.latch,
            temp_x: self.temp_x,
            temp_y: self.temp_y,
        }
    }
}

impl ScrollState {
    /// A write goes to the horizontal value when the latch is clear, to the
    /// vertical value when it is set, and flips the latch.
    pub open spec fn write(self, data: u8) -> ScrollState {
        if !self.latch {
            ScrollState { temp_x: data, latch: true, ..self }
        } else {
            ScrollState { temp_y: data, latch: false, ..self }
        }
    }

    pub open spec fn latch_for_render(self) -> ScrollState {
        ScrollState { scroll_x: self.temp_x, scroll_y: self.temp_y, ..self }
    }
}

impl ScrollRegister {
    pub fn new() -> (r: Self)
        ensures
            r@ == (ScrollState { scroll_x: 0, scroll_y: 0, latch: false, temp_x: 0, temp_y: 0 }),
    {
        ScrollRegister { scroll_x: 0, scroll_y: 0, latch: false, temp_x: 0, temp_y: 0 }
    }

    pub fn write(&mut self, data: u8)
        ensures
            final(self)@ == old(self)@.write(data),
    {
        if !self.latch {
            self.temp_x = data;
        } else {
            self.temp_y = data;
        }
        self.latch = !self.latch;
    }

    pub fn reset_latch(&mut self)
        ensures
            final(self)@ == (ScrollState { latch: false, ..old(self)@ }),
    {
        self.latch = false;
    }

    /// Makes the pending scroll values the ones used for rendering.
    pub fn latch_for_render(&mut self)
        ensures
            final(self)@ == old(self)@.latch_for_render(),
    {
        self.scroll_x = self.temp_x;
        self.scroll_y = self.temp_y;
    }
}

/// Law: from a cleared latch, a write of `x` then of `y`, followed by the
/// render latch, makes `x` and `y` the scroll position, and leaves the latch
/// clear again; until the render latch, the writes leave the position the
/// picture is drawn with as it was.
pub proof fn lemma_scroll_write_pair(s: ScrollState, x: u8, y: u8)
    requires
        !s.latch,
    ensures
        s.write(x).write(y).scroll_x == s.scroll_x,
        s.write(x).write(y).scroll_y == s.scroll_y,
        s.write(x).write(y).latch_for_render().scroll_x == x,
        s.write(x).write(y).latch_for_render().scroll_y == y,
        !s.write(x).write(y).latch,
{
}

} // verus!
