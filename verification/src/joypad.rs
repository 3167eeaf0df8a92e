use vstd::prelude::*;

verus! {

/// The buttons of a standard controller, in the order of its shift register
/// (bit 0 is read first).
#[allow(non_camel_case_types)]
#[derive(Clone, Copy, Debug, PartialEq, Eq, Structural)]
pub enum JoypadButton {
    BUTTON_A,
    BUTTON_B,
    SELECT,
    START,
    UP,
    DOWN,
    LEFT,
    RIGHT,
}

impl JoypadButton {
    /// Position of the button in the controller's shift register.
    pub open spec fn spec_index(self) -> u8 {
        match self {
            JoypadButton::BUTTON_A => 0,
            JoypadButton::BUTTON_B => 1,
            JoypadButton::SELECT => 2,
            JoypadButton::START => 3,
            JoypadButton::UP => 4,
            JoypadButton::DOWN => 5,
            JoypadButton::LEFT => 6,
            JoypadButton::RIGHT => 7,
        }
    }

    /// The button's bit in the controller's shift register.
    pub open spec fn spec_mask(self) -> u8 {
        match self {
            JoypadButton::BUTTON_A => 0b0000_0001,
            JoypadButton::BUTTON_B => 0b0000_0010,
            JoypadButton::SELECT => 0b0000_0100,
            JoypadButton::START => 0b0000_1000,
            JoypadButton::UP => 0b0001_0000,
            JoypadButton::DOWN => 0b0010_0000,
            JoypadButton::LEFT => 0b0100_0000,
            JoypadButton::RIGHT => 0b1000_0000,
        }
    }

    pub fn mask(&self) -> (r: u8)
        ensures
            r == self.spec_mask(),
    {
        match self {
            JoypadButton::BUTTON_A => 0b0000_0001,
            JoypadButton::BUTTON_B => 0b0000_0010,
            JoypadButton::SELECT => 0b0000_0100,
            JoypadButton::START => 0b0000_1000,
            JoypadButton::UP => 0b0001_0000,
            JoypadButton::DOWN => 0b0010_0000,
            JoypadButton::LEFT => 0b0100_0000,
            JoypadButton::RIGHT => 0b1000_0000,
        }
    }
}

/// Controller 1 ($4016): the pressed buttons are shifted out one per read
/// while the strobe is off.
pub struct Joypad {
    pub strobe: bool,
    pub button_index: u8,
    pub button_status: u8,
}

/// Mathematical value of a controller.
pub struct JoypadState {
    pub strobe: bool,
    pub button_index: u8,
    pub button_status: u8,
}

impl View for Joypad {
    type V = JoypadState;

    open spec fn view(&self) -> JoypadState {
        JoypadState {
            strobe: self.strobe,
            button_index: self.button_index,
            button_status: self.button_status,
        }
    }
}

impl JoypadState {
    pub open spec fn wf(self) -> bool {
        self.button_index <= 8
    }

    /// Writing bit 0 turns the strobe on or off; strobing rewinds to button A.
    pub open spec fn write(self, data: u8) -> JoypadState {
        let strobe = data & 1 == 1;
        JoypadState {
            strobe,
            button_index: if strobe { 0 } else { self.button_index },
            button_status: self.button_status,
        }
    }

    /// The bit of the current button, or 1 once all eight were read.
    pub open spec fn read_value(self) -> u8 {
        if self.button_index > 7 {
            1
        } else {
            (self.button_status >> self.button_index) & 1
        }
    }

    pub open spec fn read_next(self) -> JoypadState {
        if self.button_index <= 7 && !self.strobe {
            JoypadState { button_index: (self.button_index + 1) as u8, ..self }
        } else {
            self
        }
    }
}

impl Joypad {
    pub fn new() -> (r: Self)
        ensures
            r@ == (JoypadState { strobe: false, button_index: 0, button_status: 0 }),
    {
        Joypad { strobe: false, button_index: 0, button_status: 0 }
    }

    pub fn write(&mut self, data: u8)
        ensures
            final(self)@ == old(self)@.write(data),
    {
        self.strobe = data & 1 == 1;
        if self.strobe {
            self.button_index = 0;
        }
    }

    pub fn read(&mut self) -> (r: u8)
        requires
            old(self)@.wf(),
        ensures
            r == old(self)@.read_value(),
            final(self)@ == old(self)@.read_next(),
            final(self)@.wf(),
    {
        if self.button_index > 7 {
            return 1;
        }
        let response = (self.button_status >> self.button_index) & 1;
        if !self.strobe && self.button_index <= 7 {
            self.button_index = self.button_index + 1;
        }
        response
    }

    pub fn set_button_pressed_status(&mut self, button: JoypadButton, pressed: bool)
        ensures
            final(self)@ == (JoypadState {
                button_status: crate::status::with_bits(
                    old(self)@.button_status,
                    button.spec_mask(),
                    pressed,
                ),
                ..old(self)@
            }),
    {
        let m = button.mask();
        self.button_status = crate::status::set_bits(self.button_status, m, pressed);
    }
}

/// Each button's mask is the single bit at its index.
pub proof fn lemma_mask_is_index_bit(b: JoypadButton)
    ensures
        b.spec_index() < 8,
        b.spec_mask() == 1u8 << b.spec_index(),
{
    assert(1u8 << 0u8 == 1 && 1u8 << 1u8 == 2 && 1u8 << 2u8 == 4 && 1u8 << 3u8 == 8 && 1u8 << 4u8
        == 16 && 1u8 << 5u8 == 32 && 1u8 << 6u8 == 64 && 1u8 << 7u8 == 128) by (bit_vector);
}

/// Law: each button's state is the bit at its index; pressing a button makes
/// it read as 1 at its position and leaves the other buttons alone.
pub proof fn lemma_press_reads_back(status: u8, i: u8, j: u8, pressed: bool)
    requires
        i < 8,
        j < 8,
    ensures
        ((crate::status::with_bits(status, 1u8 << i, pressed) >> i) & 1 == 1) == pressed,
        i != j ==> (crate::status::with_bits(status, 1u8 << i, pressed) >> j) & 1 == (status >> j) & 1,
{
    if pressed {
        assert(((status | (1u8 << i)) >> i) & 1 == 1) by (bit_vector) requires i < 8;
        assert(i != j ==> ((status | (1u8 << i)) >> j) & 1 == (status >> j) & 1) by (bit_vector)
            requires i < 8, j < 8;
    } else {
        assert(((status & !(1u8 << i)) >> i) & 1 == 0) by (bit_vector) requires i < 8;
        assert(i != j ==> ((status & !(1u8 << i)) >> j) & 1 == (status >> j) & 1) by (bit_vector)
            requires i < 8, j < 8;
    }
}

} // verus!
