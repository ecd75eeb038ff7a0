//! The joypad register: two groups of four keys, read through one port.

use vstd::prelude::*;

verus! {

#[derive(Clone, Copy, Debug, PartialEq, Eq, Structural)]
pub enum KeyValue {
    Down,
    Up,
    Left,
    Right,
    Start,
    Select,
    B,
    A,
}

impl KeyValue {
    /// Whether the key belongs to the direction group.
    pub open spec fn spec_is_direction(self) -> bool {
        self == KeyValue::Down || self == KeyValue::Up || self == KeyValue::Left || self == KeyValue::Right
    }

    /// The bit of the key inside its group.
    pub open spec fn spec_mask(self) -> u8 {
        match self {
            KeyValue::Down | KeyValue::Start => 0b0000_1000,
            KeyValue::Up | KeyValue::Select => 0b0000_0100,
            KeyValue::Left | KeyValue::B => 0b0000_0010,
            KeyValue::Right | KeyValue::A => 0b0000_0001,
        }
    }

    #[verifier::when_used_as_spec(spec_is_direction)]
    pub fn is_direction(self) -> (r: bool)
        ensures
            r == self.spec_is_direction(),
    {
        match self {
            KeyValue::Down | KeyValue::Up | KeyValue::Left | KeyValue::Right => true,
            _ => false,
        }
    }

    #[verifier::when_used_as_spec(spec_mask)]
    pub fn mask(self) -> (r: u8)
        ensures
            r == self.spec_mask(),
    {
        match self {
            KeyValue::Down | KeyValue::Start => 0b0000_1000,
            KeyValue::Up | KeyValue::Select => 0b0000_0100,
            KeyValue::Left | KeyValue::B => 0b0000_0010,
            KeyValue::Right | KeyValue::A => 0b0000_0001,
        }
    }
}

/// The state of the joypad. In both groups a 0 bit is a pressed key.
#[derive(Clone, Copy, Debug, PartialEq, Eq, Structural)]
pub struct Joypad {
    pub buttons_pressed: u8,
    pub directions_pressed: u8,
    pub joyp: u8,
    pub joypad_interrupt_req: bool,
}

impl Joypad {
    /// The joypad after `key` went down: its bit is cleared and an
    /// interrupt is requested.
    pub open spec fn after_press(&self, key: KeyValue) -> Joypad {
        if key.spec_is_direction() {
            Joypad { directions_pressed: self.directions_pressed & !key.spec_mask(), joypad_interrupt_req: true, ..*self }
        } else {
            Joypad { buttons_pressed: self.buttons_pressed & !key.spec_mask(), joypad_interrupt_req: true, ..*self }
        }
    }

    /// The joypad after `key` went up: its bit is set.
    pub open spec fn after_release(&self, key: KeyValue) -> Joypad {
        if key.spec_is_direction() {
            Joypad { directions_pressed: self.directions_pressed | key.spec_mask(), ..*self }
        } else {
            Joypad { buttons_pressed: self.buttons_pressed | key.spec_mask(), ..*self }
        }
    }

    /// What a read of the port returns: the button group while bit 5 of
    /// the select register is clear, the direction group otherwise.
    pub open spec fn spec_joyp(&self) -> u8 {
        if self.joyp & 0b0010_0000 == 0 {
            self.buttons_pressed
        } else {
            self.directions_pressed
        }
    }

    /// The joypad after `value` was written to the port: the two select
    /// bits of `value` are added to those already set.
    pub open spec fn after_select(&self, value: u8) -> Joypad {
        Joypad { joyp: self.joyp | (value & 0b0011_0000), ..*self }
    }

    pub fn new() -> (r: Joypad)
        ensures
            r == (Joypad { buttons_pressed: 0x0F, directions_pressed: 0x0F, joyp: 0, joypad_interrupt_req: false }),
    {
        Joypad { buttons_pressed: 0x0F, directions_pressed: 0x0F, joyp: 0, joypad_interrupt_req: false }
    }

    pub fn set_key_pressed(&mut self, key: KeyValue)
        ensures
            *final(self) == old(self).after_press(key),
    {
        let mask: u8 = key.mask();
        if key.is_direction() {
            self.directions_pressed = self.directions_pressed & !mask;
        } else {
            self.buttons_pressed = self.buttons_pressed & !mask;
        }
        self.joypad_interrupt_req = true;
    }

    pub fn set_key_released(&mut self, key: KeyValue)
        ensures
            *final(self) == old(self).after_release(key),
    {
        let mask: u8 = key.mask();
        if key.is_direction() {
            self.directions_pressed = self.directions_pressed | mask;
        } else {
            self.buttons_pressed = self.buttons_pressed | mask;
        }
    }

    #[verifier::when_used_as_spec(spec_joyp)]
    pub fn joyp(&self) -> (r: u8)
        ensures
            r == self.spec_joyp(),
    {
        if self.joyp & 0b0010_0000 == 0 {
            self.buttons_pressed
        } else {
            self.directions_pressed
        }
    }

    pub fn set_joyp(&mut self, value: u8)
        ensures
            *final(self) == old(self).after_select(value),
    {
        self.joyp = self.joyp | (value & 0b0011_0000);
    }
}

/// Releasing a key undoes pressing it on a group in which the key was up,
/// and neither touches the bit of another key.
pub proof fn lemma_press_release(group: u8, mask: u8, other: u8)
    by (bit_vector)
    requires
        mask == 1 || mask == 2 || mask == 4 || mask == 8,
        other == 1 || other == 2 || other == 4 || other == 8,
    ensures
        (group & !mask) & mask == 0,
        (group | mask) & mask == mask,
        group & mask == mask ==> (group & !mask) | mask == group,
        other != mask ==> (group & !mask) & other == group & other,
        other != mask ==> (group | mask) & other == group & other,
{
}

} // verus!
