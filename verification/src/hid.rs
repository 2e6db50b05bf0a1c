//! Human Interface Device (keyboard and mouse) related types.

use vstd::prelude::*;

pub use pc_keyboard::KeyCode;

verus! {

/// The key codes of [`pc_keyboard`]. A key code is carried through as it is.
#[verifier::external_type_specification]
#[verifier::external_body]
pub struct ExKeyCode(pc_keyboard::KeyCode);

/// Represents a event from a Human Input Device (such as a mouse or keyboard).
#[derive(Debug, PartialEq, Eq)]
pub enum HidEvent {
    /// A key was pressed.
    KeyPress(KeyCode),
    /// A key was released.
    KeyRelease(KeyCode),
    /// A mouse was moved or mouse button was clicked.
    ///
    /// Or these may be generated periodically even if there was no movement or clicking.
    MouseInput(MouseData),
}

impl Clone for HidEvent {
    /// An event is plain data: its clone is the same event.
    fn clone(&self) -> (event: Self)
        ensures
            event == *self,
    {
        match self {
            HidEvent::KeyPress(code) => HidEvent::KeyPress(*code),
            HidEvent::KeyRelease(code) => HidEvent::KeyRelease(*code),
            HidEvent::MouseInput(data) => HidEvent::MouseInput(*data),
        }
    }
}

/// Represents the movement of a mouse over the previous period of time, and
/// the current state of the mouse buttons.
#[derive(Copy, Clone, PartialEq, Eq, Debug)]
pub struct MouseData {
    /// How far the mouse moved left(-ve)/right(+ve) since the last request
    pub x: i16,
    /// How far the mouse moved up(-ve)/down(+ve) since the last request
    pub y: i16,
    /// The current state of the mouse buttons.
    pub buttons: MouseButtons,
}

/// Represents the buttons on a mouse: the left button in bit 0, the middle
/// button in bit 1 and the right button in bit 2.
#[derive(Copy, Clone, PartialEq, Eq, Debug, Structural)]
pub struct MouseButtons(u8);

/// Represents the LEDs on a keyboard: Caps Lock in bit 0, Scroll Lock in
/// bit 1 and Num Lock in bit 2.
#[derive(Copy, Clone, PartialEq, Eq, Debug, Structural)]
pub struct KeyboardLeds(u8);

/// Is the given bit of a byte set?
pub open spec fn bit_is_set(bits: u8, index: nat) -> bool
    recommends
        index < 3,
{
    if index == 0 {
        bits % 2 == 1
    } else if index == 1 {
        (bits / 2) % 2 == 1
    } else {
        (bits / 4) % 2 == 1
    }
}

/// Setting one of the three low bits of a byte sets that bit and leaves every
/// other bit as it was; testing a bit by masking is testing it by dividing.
proof fn lemma_low_bits(bits: u8)
    by (bit_vector)
    ensures
        ((bits & (1u8 << 0)) != 0) == (bits % 2 == 1),
        ((bits & (1u8 << 1)) != 0) == ((bits / 2) % 2 == 1),
        ((bits & (1u8 << 2)) != 0) == ((bits / 4) % 2 == 1),
        (bits | (1u8 << 0)) == (if bits % 2 == 1 { bits } else { (bits + 1) as u8 }),
        (bits | (1u8 << 1)) == (if (bits / 2) % 2 == 1 { bits } else { (bits + 2) as u8 }),
        (bits | (1u8 << 2)) == (if (bits / 4) % 2 == 1 { bits } else { (bits + 4) as u8 }),
{
}

/// The byte `bits` with the bit at `index` set.
pub open spec fn with_bit(bits: u8, index: nat) -> u8
    recommends
        index < 3,
{
    if bit_is_set(bits, index) {
        bits
    } else if index == 0 {
        (bits + 1) as u8
    } else if index == 1 {
        (bits + 2) as u8
    } else {
        (bits + 4) as u8
    }
}

impl MouseButtons {
    /// The byte that holds the three buttons.
    pub closed spec fn bits(self) -> u8 {
        self.0
    }

    /// Is the left button pressed?
    pub open spec fn spec_left(self) -> bool {
        bit_is_set(self.bits(), 0)
    }

    /// Is the middle button pressed?
    pub open spec fn spec_middle(self) -> bool {
        bit_is_set(self.bits(), 1)
    }

    /// Is the right button pressed?
    pub open spec fn spec_right(self) -> bool {
        bit_is_set(self.bits(), 2)
    }

    /// Create a new `MouseButtons` value.
    ///
    /// All buttons default to *not pressed*
    pub fn new() -> (buttons: Self)
        ensures
            buttons.bits() == 0,
            !buttons.spec_left() && !buttons.spec_middle() && !buttons.spec_right(),
    {
        Self(0)
    }

    /// Note that the left mouse button is currently being pressed.
    pub fn set_left_pressed(self) -> (buttons: Self)
        ensures
            buttons.bits() == with_bit(self.bits(), 0),
            buttons.spec_left(),
            buttons.spec_middle() == self.spec_middle(),
            buttons.spec_right() == self.spec_right(),
    {
        proof {
            lemma_low_bits(self.0);
        }
        let value: u8 = self.0 | (1u8 << 0);
        Self(value)
    }

    /// Note that the middle mouse button is currently being pressed.
    pub fn set_middle_pressed(self) -> (buttons: Self)
        ensures
            buttons.bits() == with_bit(self.bits(), 1),
            buttons.spec_middle(),
            buttons.spec_left() == self.spec_left(),
            buttons.spec_right() == self.spec_right(),
    {
        proof {
            lemma_low_bits(self.0);
        }
        let value: u8 = self.0 | (1u8 << 1);
        Self(value)
    }

    /// Note that the right mouse button is currently being pressed.
    pub fn set_right_pressed(self) -> (buttons: Self)
        ensures
            buttons.bits() == with_bit(self.bits(), 2),
            buttons.spec_right(),
            buttons.spec_left() == self.spec_left(),
            buttons.spec_middle() == self.spec_middle(),
    {
        proof {
            lemma_low_bits(self.0);
        }
        let value: u8 = self.0 | (1u8 << 2);
        Self(value)
    }

    /// Returns `true` if the left mouse button is currently being pressed.
    pub fn is_left_pressed(self) -> (pressed: bool)
        ensures
            pressed == self.spec_left(),
    {
        proof {
            lemma_low_bits(self.0);
        }
        self.0 & (1u8 << 0) != 0
    }

    /// Returns `true` if the middle mouse button is currently being pressed.
    pub fn is_middle_pressed(self) -> (pressed: bool)
        ensures
            pressed == self.spec_middle(),
    {
        proof {
            lemma_low_bits(self.0);
        }
        self.0 & (1u8 << 1) != 0
    }

    /// Returns `true` if the right mouse button is currently being pressed.
    pub fn is_right_pressed(self) -> (pressed: bool)
        ensures
            pressed == self.spec_right(),
    {
        proof {
            lemma_low_bits(self.0);
        }
        self.0 & (1u8 << 2) != 0
    }
}

impl Default for MouseButtons {
    /// No button is pressed.
    fn default() -> (buttons: Self)
        ensures
            buttons.bits() == 0,
    {
        Self::new()
    }
}

impl KeyboardLeds {
    /// The byte that holds the three lights.
    pub closed spec fn bits(self) -> u8 {
        self.0
    }

    /// Is the Caps Lock light on?
    pub open spec fn spec_caps_lock(self) -> bool {
        bit_is_set(self.bits(), 0)
    }

    /// Is the Scroll Lock light on?
    pub open spec fn spec_scroll_lock(self) -> bool {
        bit_is_set(self.bits(), 1)
    }

    /// Is the Num Lock light on?
    pub open spec fn spec_num_lock(self) -> bool {
        bit_is_set(self.bits(), 2)
    }

    /// Create a new `KeyboardLeds` value.
    ///
    /// All lights default to *off*
    pub fn new() -> (leds: Self)
        ensures
            leds.bits() == 0,
            !leds.spec_caps_lock() && !leds.spec_scroll_lock() && !leds.spec_num_lock(),
    {
        Self(0)
    }

    /// Note that the Caps Lock light should be on.
    pub fn set_caps_lock_on(self) -> (leds: Self)
        ensures
            leds.bits() == with_bit(self.bits(), 0),
            leds.spec_caps_lock(),
            leds.spec_scroll_lock() == self.spec_scroll_lock(),
            leds.spec_num_lock() == self.spec_num_lock(),
    {
        proof {
            lemma_low_bits(self.0);
        }
        let value: u8 = self.0 | (1u8 << 0);
        Self(value)
    }

    /// Note that the Scroll Lock light should be on.
    pub fn set_scroll_lock_on(self) -> (leds: Self)
        ensures
            leds.bits() == with_bit(self.bits(), 1),
            leds.spec_scroll_lock(),
            leds.spec_caps_lock() == self.spec_caps_lock(),
            leds.spec_num_lock() == self.spec_num_lock(),
    {
        proof {
            lemma_low_bits(self.0);
        }
        let value: u8 = self.0 | (1u8 << 1);
        Self(value)
    }

    /// Note that the Num Lock light should be on.
    pub fn set_num_lock_on(self) -> (leds: Self)
        ensures
            leds.bits() == with_bit(self.bits(), 2),
            leds.spec_num_lock(),
            leds.spec_caps_lock() == self.spec_caps_lock(),
            leds.spec_scroll_lock() == self.spec_scroll_lock(),
    {
        proof {
            lemma_low_bits(self.0);
        }
        let value: u8 = self.0 | (1u8 << 2);
        Self(value)
    }

    /// Returns `true` if the Caps Lock light should be on.
    pub fn is_caps_lock_on(self) -> (on: bool)
        ensures
            on == self.spec_caps_lock(),
    {
        proof {
            lemma_low_bits(self.0);
        }
        self.0 & (1u8 << 0) != 0
    }

    /// Returns `true` if the Scroll Lock light should be on.
    pub fn is_scroll_lock_on(self) -> (on: bool)
        ensures
            on == self.spec_scroll_lock(),
    {
        proof {
            lemma_low_bits(self.0);
        }
        self.0 & (1u8 << 1) != 0
    }

    /// Returns `true` if the Num Lock light should be on.
    pub fn is_num_lock_on(self) -> (on: bool)
        ensures
            on == self.spec_num_lock(),
    {
        proof {
            lemma_low_bits(self.0);
        }
        self.0 & (1u8 << 2) != 0
    }
}

impl Default for KeyboardLeds {
    /// No light is on.
    fn default() -> (leds: Self)
        ensures
            leds.bits() == 0,
    {
        Self::new()
    }
}

/// Setting a bit sets it, leaves the other two as they were, and changes
/// nothing when it was set already.
pub proof fn lemma_with_bit(bits: u8, index: nat, other: nat)
    requires
        index < 3,
        other < 3,
    ensures
        bit_is_set(with_bit(bits, index), index),
        other != index ==> bit_is_set(with_bit(bits, index), other) == bit_is_set(bits, other),
        with_bit(with_bit(bits, index), index) == with_bit(bits, index),
        with_bit(bits, index) / 8 == bits / 8,
{
}

} // verus!
