//! What a cartridge's bank controller offers to the bus.

use vstd::prelude::*;

verus! {

pub const ROM_BANK_SIZE: usize = 0x4000;
pub const BANK0_START: usize = 0x0000;
pub const BANK0_END: usize = 0x3FFF;
pub const BANKN_START: usize = 0x4000;
pub const BANKN_END: usize = 0x7FFF;

/// Why a cartridge image was refused.
#[derive(Clone, Copy, Debug, PartialEq, Eq, Structural)]
pub enum LoadError {
    /// The image ends before its header does.
    MissingHeader,
    /// The two signature bytes at the start of the header are wrong.
    BadMagic,
    /// The cartridge-type byte names hardware that is not emulated.
    UnsupportedMbc(u8),
    /// The image's length is not the one its ROM-size byte declares.
    SizeMismatch,
    /// The RAM-size byte declares external RAM.
    ExternalRam,
}

impl LoadError {
    /// The error in words; each names the field of the header that
    /// the image was refused for.
    pub open spec fn spec_describe(self) -> Seq<char> {
        match self {
            LoadError::MissingHeader => "The image is shorter than a cartridge header"@,
            LoadError::BadMagic => "The magic number is wrong: this is not a cartridge image"@,
            LoadError::UnsupportedMbc(_) => "The cartridge type names a bank controller that is not supported"@,
            LoadError::SizeMismatch => "The ROM size in the header and the size of the image do not match"@,
            LoadError::ExternalRam => "The RAM size in the header asks for external RAM, which is not supported"@,
        }
    }

    pub fn describe(self) -> (r: &'static str)
        ensures
            r@ == self.spec_describe(),
    {
        match self {
            LoadError::MissingHeader => "The image is shorter than a cartridge header",
            LoadError::BadMagic => "The magic number is wrong: this is not a cartridge image",
            LoadError::UnsupportedMbc(_) => "The cartridge type names a bank controller that is not supported",
            LoadError::SizeMismatch => "The ROM size in the header and the size of the image do not match",
            LoadError::ExternalRam => "The RAM size in the header asks for external RAM, which is not supported",
        }
    }
}

/// The 16-bit value read from two bytes, the low byte first.
pub open spec fn word_from(low: u8, high: u8) -> u16 {
    (low + high * 256) as u16
}

/// The address after `address`, modulo 2^16.
pub open spec fn next_address(address: u16) -> u16 {
    if address == 0xFFFF { 0 } else { (address + 1) as u16 }
}

/// The capabilities of a bank controller. `rom` is the image it holds;
/// the other spec functions say what each access means for the variant.
pub trait MBC: Sized {
    spec fn rom(&self) -> Seq<u8>;

    spec fn spec_read_byte(&self, address: u16) -> u8;

    spec fn rom_after_write_byte(&self, address: u16, value: u8) -> Seq<u8>;

    spec fn rom_after_write_word(&self, address: u16, value: u16) -> Seq<u8>;

    /// The reason for which `image` is refused, if it is.
    spec fn load_error(image: Seq<u8>) -> Option<LoadError>;

    fn read_byte(&self, address: u16) -> (r: u8)
        ensures
            r == self.spec_read_byte(address),
    ;

    /// Two byte reads, the low byte at the lower address.
    fn read_word(&self, address: u16) -> (r: u16)
        ensures
            r == word_from(self.spec_read_byte(address), self.spec_read_byte(next_address(address))),
    ;

    fn write_byte(&mut self, address: u16, value: u8)
        ensures
            final(self).rom() == old(self).rom_after_write_byte(address, value),
    ;

    fn write_word(&mut self, address: u16, value: u16)
        ensures
            final(self).rom() == old(self).rom_after_write_word(address, value),
    ;

    /// Takes `image` as the cartridge if its header is acceptable, and
    /// leaves the controller as it was if not.
    fn open_rom(&mut self, image: Vec<u8>) -> (r: Result<(), LoadError>)
        ensures
            match r {
                Ok(()) => Self::load_error(image@) is None && final(self).rom() == image@,
                Err(e) => Self::load_error(image@) == Some(e) && final(self).rom() == old(self).rom(),
            },
    ;
}

} // verus!
