//! The register file: eight 8-bit registers, the four flags, SP and PC.

use vstd::prelude::*;

verus! {

/// The four condition flags of the processor.
#[derive(Clone, Copy, Debug, PartialEq, Eq, Structural)]
pub enum CpuFlags {
    C,
    H,
    N,
    Z,
}

impl CpuFlags {
    /// The bit that the flag occupies in the flag register.
    pub open spec fn spec_mask(self) -> u8 {
        match self {
            CpuFlags::C => 0x10,
            CpuFlags::H => 0x20,
            CpuFlags::N => 0x40,
            CpuFlags::Z => 0x80,
        }
    }

    #[verifier::when_used_as_spec(spec_mask)]
    pub fn mask(self) -> (r: u8)
        ensures
            r == self.spec_mask(),
    {
        match self {
            CpuFlags::C => 0x10,
            CpuFlags::H => 0x20,
            CpuFlags::N => 0x40,
            CpuFlags::Z => 0x80,
        }
    }
}

/// The register file. The flag register is held as its four meaningful
/// bits, so its low nibble is zero by construction.
#[derive(Clone, Copy, Debug, PartialEq, Eq, Structural)]
pub struct Registers {
    pub a: u8,
    pub b: u8,
    pub c: u8,
    pub d: u8,
    pub e: u8,
    pub zero: bool,
    pub subtract: bool,
    pub half_carry: bool,
    pub carry: bool,
    pub h: u8,
    pub l: u8,
    pub pc: u16,
    pub sp: u16,
}

/// The 16-bit value whose high byte is `hi` and whose low byte is `lo`.
pub open spec fn word_of(hi: u8, lo: u8) -> u16 {
    (hi * 256 + lo) as u16
}

/// The high byte of a 16-bit value.
pub open spec fn high_byte(value: u16) -> u8 {
    (value / 256) as u8
}

/// The low byte of a 16-bit value.
pub open spec fn low_byte(value: u16) -> u8 {
    (value % 256) as u8
}

/// `value + 1` modulo 2^16.
pub open spec fn inc16(value: u16) -> u16 {
    if value == 0xFFFF { 0 } else { (value + 1) as u16 }
}

/// `value - 1` modulo 2^16.
pub open spec fn dec16(value: u16) -> u16 {
    if value == 0 { 0xFFFF } else { (value - 1) as u16 }
}

/// Splitting a 16-bit value into a high byte and four flag bits and putting
/// it together again loses the low nibble and nothing else.
pub proof fn lemma_flag_bits_of_word(value: u16)
    by (bit_vector)
    ensures
        (value / 256) * 256 + (if (value / 0x80) % 2 == 1 { 0x80u16 } else { 0 }) + (if (value / 0x40) % 2 == 1 { 0x40u16 } else { 0 })
            + (if (value / 0x20) % 2 == 1 { 0x20u16 } else { 0 }) + (if (value / 0x10) % 2 == 1 { 0x10u16 } else { 0 }) == value - value % 16,
{
}

impl Registers {
    /// The flag register as a byte: Z, N, H, C in bits 7 to 4.
    pub open spec fn spec_flags(&self) -> u8 {
        ((if self.zero { 0x80int } else { 0 }) + (if self.subtract { 0x40int } else { 0 }) + (if self.half_carry { 0x20int } else { 0 })
            + (if self.carry { 0x10int } else { 0 })) as u8
    }

    /// Whether `flag` is set.
    pub open spec fn spec_get_flag(&self, flag: CpuFlags) -> bool {
        match flag {
            CpuFlags::C => self.carry,
            CpuFlags::H => self.half_carry,
            CpuFlags::N => self.subtract,
            CpuFlags::Z => self.zero,
        }
    }

    /// The register file with `flag` set to `set`.
    pub open spec fn with_flag(&self, flag: CpuFlags, set: bool) -> Registers {
        match flag {
            CpuFlags::C => Registers { carry: set, ..*self },
            CpuFlags::H => Registers { half_carry: set, ..*self },
            CpuFlags::N => Registers { subtract: set, ..*self },
            CpuFlags::Z => Registers { zero: set, ..*self },
        }
    }

    /// Whether `index` selects a register (6 selects memory, not a register).
    pub open spec fn is_register_index(index: u8) -> bool {
        index < 8 && index != 6
    }

    /// The register selected by a 3-bit index: B, C, D, E, H, L, -, A.
    pub open spec fn spec_register(&self, index: u8) -> u8 {
        if index == 0 {
            self.b
        } else if index == 1 {
            self.c
        } else if index == 2 {
            self.d
        } else if index == 3 {
            self.e
        } else if index == 4 {
            self.h
        } else if index == 5 {
            self.l
        } else {
            self.a
        }
    }

    /// The register file with the register selected by `index` set to `value`.
    pub open spec fn with_register(&self, index: u8, value: u8) -> Registers {
        if index == 0 {
            Registers { b: value, ..*self }
        } else if index == 1 {
            Registers { c: value, ..*self }
        } else if index == 2 {
            Registers { d: value, ..*self }
        } else if index == 3 {
            Registers { e: value, ..*self }
        } else if index == 4 {
            Registers { h: value, ..*self }
        } else if index == 5 {
            Registers { l: value, ..*self }
        } else {
            Registers { a: value, ..*self }
        }
    }

    pub open spec fn spec_af(&self) -> u16 {
        word_of(self.a, self.spec_flags())
    }

    pub open spec fn spec_bc(&self) -> u16 {
        word_of(self.b, self.c)
    }

    pub open spec fn spec_de(&self) -> u16 {
        word_of(self.d, self.e)
    }

    pub open spec fn spec_hl(&self) -> u16 {
        word_of(self.h, self.l)
    }

    /// AF set to `value`: the low nibble of the flag byte is dropped.
    pub open spec fn with_af(&self, value: u16) -> Registers {
        Registers {
            a: high_byte(value),
            zero: (value / 0x80) % 2 == 1,
            subtract: (value / 0x40) % 2 == 1,
            half_carry: (value / 0x20) % 2 == 1,
            carry: (value / 0x10) % 2 == 1,
            ..*self
        }
    }

    pub open spec fn with_bc(&self, value: u16) -> Registers {
        Registers { b: high_byte(value), c: low_byte(value), ..*self }
    }

    pub open spec fn with_de(&self, value: u16) -> Registers {
        Registers { d: high_byte(value), e: low_byte(value), ..*self }
    }

    pub open spec fn with_hl(&self, value: u16) -> Registers {
        Registers { h: high_byte(value), l: low_byte(value), ..*self }
    }

    /// The state at power-on.
    pub open spec fn power_on() -> Registers {
        Registers {
            a: 0x01,
            b: 0x00,
            c: 0x13,
            d: 0x00,
            e: 0xD8,
            zero: true,
            subtract: false,
            half_carry: true,
            carry: true,
            h: 0x01,
            l: 0x4D,
            pc: 0x0100,
            sp: 0xFFFE,
        }
    }

    pub fn new() -> (r: Registers)
        ensures
            r == Registers::power_on(),
            r.spec_flags() == 0xB0,
            r.spec_af() == 0x01B0,
    {
        Registers {
            a: 0x01,
            b: 0x00,
            c: 0x13,
            d: 0x00,
            e: 0xD8,
            zero: true,
            subtract: false,
            half_carry: true,
            carry: true,
            h: 0x01,
            l: 0x4D,
            pc: 0x0100,
            sp: 0xFFFE,
        }
    }

    /// The flag register as a byte; its low nibble is always zero.
    #[verifier::when_used_as_spec(spec_flags)]
    pub fn flags(&self) -> (r: u8)
        ensures
            r == self.spec_flags(),
            r % 16 == 0,
    {
        let z: u8 = if self.zero { 0x80 } else { 0 };
        let n: u8 = if self.subtract { 0x40 } else { 0 };
        let h: u8 = if self.half_carry { 0x20 } else { 0 };
        let c: u8 = if self.carry { 0x10 } else { 0 };
        z + n + h + c
    }

    pub fn get_register_by_index(&self, index: u8) -> (r: u8)
        requires
            Registers::is_register_index(index),
        ensures
            r == self.spec_register(index),
    {
        if index == 0 {
            self.b
        } else if index == 1 {
            self.c
        } else if index == 2 {
            self.d
        } else if index == 3 {
            self.e
        } else if index == 4 {
            self.h
        } else if index == 5 {
            self.l
        } else {
            self.a
        }
    }

    pub fn set_register_by_index(&mut self, index: u8, value: u8)
        requires
            Registers::is_register_index(index),
        ensures
            *final(self) == old(self).with_register(index, value),
    {
        if index == 0 {
            self.b = value;
        } else if index == 1 {
            self.c = value;
        } else if index == 2 {
            self.d = value;
        } else if index == 3 {
            self.e = value;
        } else if index == 4 {
            self.h = value;
        } else if index == 5 {
            self.l = value;
        } else {
            self.a = value;
        }
    }

    #[verifier::when_used_as_spec(spec_af)]
    pub fn af(&self) -> (r: u16)
        ensures
            r == self.spec_af(),
            r % 16 == 0,
    {
        (self.a as u16) * 256 + (self.flags() as u16)
    }

    #[verifier::when_used_as_spec(spec_bc)]
    pub fn bc(&self) -> (r: u16)
        ensures
            r == self.spec_bc(),
    {
        (self.b as u16) * 256 + (self.c as u16)
    }

    #[verifier::when_used_as_spec(spec_de)]
    pub fn de(&self) -> (r: u16)
        ensures
            r == self.spec_de(),
    {
        (self.d as u16) * 256 + (self.e as u16)
    }

    #[verifier::when_used_as_spec(spec_hl)]
    pub fn hl(&self) -> (r: u16)
        ensures
            r == self.spec_hl(),
    {
        (self.h as u16) * 256 + (self.l as u16)
    }

    pub fn setaf(&mut self, value: u16)
        ensures
            *final(self) == old(self).with_af(value),
            final(self).spec_af() == value - value % 16,
    {
        proof {
            lemma_flag_bits_of_word(value);
        }
        self.a = (value / 256) as u8;
        self.zero = (value / 0x80) % 2 == 1;
        self.subtract = (value / 0x40) % 2 == 1;
        self.half_carry = (value / 0x20) % 2 == 1;
        self.carry = (value / 0x10) % 2 == 1;
    }

    pub fn setbc(&mut self, value: u16)
        ensures
            *final(self) == old(self).with_bc(value),
            final(self).spec_bc() == value,
    {
        self.b = (value / 256) as u8;
        self.c = (value % 256) as u8;
    }

    pub fn setde(&mut self, value: u16)
        ensures
            *final(self) == old(self).with_de(value),
            final(self).spec_de() == value,
    {
        self.d = (value / 256) as u8;
        self.e = (value % 256) as u8;
    }

    pub fn sethl(&mut self, value: u16)
        ensures
            *final(self) == old(self).with_hl(value),
            final(self).spec_hl() == value,
    {
        self.h = (value / 256) as u8;
        self.l = (value % 256) as u8;
    }

    /// Returns HL, then increments it modulo 2^16.
    pub fn hl_and_inc(&mut self) -> (r: u16)
        ensures
            r == old(self).spec_hl(),
            *final(self) == old(self).with_hl(inc16(old(self).spec_hl())),
    {
        let hl: u16 = self.hl();
        self.increment_hl();
        hl
    }

    /// Returns HL, then decrements it modulo 2^16.
    pub fn hl_and_dec(&mut self) -> (r: u16)
        ensures
            r == old(self).spec_hl(),
            *final(self) == old(self).with_hl(dec16(old(self).spec_hl())),
    {
        let hl: u16 = self.hl();
        self.decrement_hl();
        hl
    }

    pub fn increment_hl(&mut self)
        ensures
            *final(self) == old(self).with_hl(inc16(old(self).spec_hl())),
    {
        let value: u16 = self.hl();
        self.sethl(value.wrapping_add(1));
    }

    pub fn decrement_hl(&mut self)
        ensures
            *final(self) == old(self).with_hl(dec16(old(self).spec_hl())),
    {
        let value: u16 = self.hl();
        self.sethl(value.wrapping_sub(1));
    }

    pub fn set_flags(&mut self, flags: CpuFlags, set: bool)
        ensures
            *final(self) == old(self).with_flag(flags, set),
    {
        match flags {
            CpuFlags::C => {
                self.carry = set;
            },
            CpuFlags::H => {
                self.half_carry = set;
            },
            CpuFlags::N => {
                self.subtract = set;
            },
            CpuFlags::Z => {
                self.zero = set;
            },
        }
    }

    #[verifier::when_used_as_spec(spec_get_flag)]
    pub fn get_flag(&self, flag: CpuFlags) -> (r: bool)
        ensures
            r == self.spec_get_flag(flag),
    {
        match flag {
            CpuFlags::C => self.carry,
            CpuFlags::H => self.half_carry,
            CpuFlags::N => self.subtract,
            CpuFlags::Z => self.zero,
        }
    }
}

} // verus!
