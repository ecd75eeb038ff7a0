//! The cartridge without a bank controller: the image is mapped flat.

use vstd::prelude::*;
use crate::mbc::{LoadError, MBC, next_address, word_from};

verus! {

/// Where the header starts and ends, and the bytes of it that are read.
pub const HEADER_START: usize = 0x0100;
pub const HEADER_END: usize = 0x0150;
pub const TITLE_START: usize = 0x0134;
pub const TITLE_END: usize = 0x0143;
pub const CARTRIDGE_TYPE: usize = 0x0147;
pub const ROM_SIZE_CODE: usize = 0x0148;
pub const RAM_SIZE_CODE: usize = 0x0149;

pub const MBC0_ROM_SIZE: usize = 0x8000;

pub struct MBC0 {
    pub(crate) rom: Vec<u8>,
}

/// The byte of `rom` at `address`; 0xFF where the image has none.
pub open spec fn rom_byte(rom: Seq<u8>, address: u16) -> u8 {
    if address < rom.len() { rom[address as int] } else { 0xFF }
}

/// `rom` with `value` stored at `address`, if the image reaches that far.
pub open spec fn rom_store(rom: Seq<u8>, address: u16, value: u8) -> Seq<u8> {
    if address < rom.len() { rom.update(address as int, value) } else { rom }
}

/// The length that ROM-size code `code` declares: 32 KiB doubled `code`
/// times.
pub open spec fn declared_rom_size(code: nat) -> nat
    decreases code,
{
    if code == 0 { 32768 } else { 2 * declared_rom_size((code - 1) as nat) }
}

/// The header checks, in their order.
pub open spec fn header_error(image: Seq<u8>) -> Option<LoadError> {
    if image.len() < HEADER_END {
        Some(LoadError::MissingHeader)
    } else if image[0x0100] != 0x00 || image[0x0101] != 0xC3 {
        Some(LoadError::BadMagic)
    } else if image[CARTRIDGE_TYPE as int] != 0x00 {
        Some(LoadError::UnsupportedMbc(image[CARTRIDGE_TYPE as int]))
    } else if image.len() != declared_rom_size(image[ROM_SIZE_CODE as int] as nat) {
        Some(LoadError::SizeMismatch)
    } else if image[RAM_SIZE_CODE as int] != 0 {
        Some(LoadError::ExternalRam)
    } else {
        None
    }
}

/// `bytes` without its zero bytes.
pub open spec fn strip_nul(bytes: Seq<u8>) -> Seq<u8>
    decreases bytes.len(),
{
    if bytes.len() == 0 {
        Seq::empty()
    } else if bytes.last() == 0 {
        strip_nul(bytes.drop_last())
    } else {
        strip_nul(bytes.drop_last()).push(bytes.last())
    }
}

/// The title in the header of `image`, without its padding.
pub open spec fn title_of(image: Seq<u8>) -> Seq<u8> {
    if image.len() < HEADER_END {
        Seq::empty()
    } else {
        strip_nul(image.subrange(TITLE_START as int, TITLE_END as int))
    }
}

pub proof fn lemma_declared_rom_size_grows(a: nat, b: nat)
    requires
        a <= b,
    ensures
        32768 <= declared_rom_size(a) <= declared_rom_size(b),
    decreases b,
{
    if a < b {
        lemma_declared_rom_size_grows(a, (b - 1) as nat);
    } else if a > 0 {
        lemma_declared_rom_size_grows((a - 1) as nat, (a - 1) as nat);
    }
}

/// Whether `length` is the length that ROM-size code `code` declares.
pub fn matches_declared_size(length: usize, code: u8) -> (r: bool)
    ensures
        r == (length == declared_rom_size(code as nat)),
{
    let mut size: u128 = 32768;
    let mut i: u8 = 0;
    while i < code && size <= length as u128
        invariant
            i <= code,
            size == declared_rom_size(i as nat),
        decreases code - i,
    {
        size = size * 2;
        i = i + 1;
    }
    proof {
        lemma_declared_rom_size_grows(i as nat, code as nat);
    }
    i == code && size == length as u128
}

impl MBC for MBC0 {
    closed spec fn rom(&self) -> Seq<u8> {
        self.rom@
    }

    open spec fn spec_read_byte(&self, address: u16) -> u8 {
        rom_byte(self.rom(), address)
    }

    /// A byte write changes nothing: there are no banks to select.
    open spec fn rom_after_write_byte(&self, address: u16, value: u8) -> Seq<u8> {
        self.rom()
    }

    /// A word write stores both bytes, each where the image reaches.
    open spec fn rom_after_write_word(&self, address: u16, value: u16) -> Seq<u8> {
        rom_store(rom_store(self.rom(), address, (value % 256) as u8), next_address(address), (value / 256) as u8)
    }

    open spec fn load_error(image: Seq<u8>) -> Option<LoadError> {
        header_error(image)
    }

    fn read_byte(&self, address: u16) -> (r: u8) {
        if (address as usize) < self.rom.len() {
            self.rom[address as usize]
        } else {
            0xFF
        }
    }

    fn read_word(&self, address: u16) -> (r: u16) {
        let low: u8 = self.read_byte(address);
        let high: u8 = self.read_byte(address.wrapping_add(1));
        (low as u16) + (high as u16) * 256
    }

    fn write_byte(&mut self, address: u16, value: u8) {
    }

    fn write_word(&mut self, address: u16, value: u16) {
        if (address as usize) < self.rom.len() {
            self.rom[address as usize] = (value % 256) as u8;
        }
        let next: u16 = address.wrapping_add(1);
        if (next as usize) < self.rom.len() {
            self.rom[next as usize] = (value / 256) as u8;
        }
    }

    fn open_rom(&mut self, image: Vec<u8>) -> (r: Result<(), LoadError>) {
        if image.len() < HEADER_END {
            return Err(LoadError::MissingHeader);
        }
        if !MBC0::check_magic_number(&image) {
            return Err(LoadError::BadMagic);
        }
        let kind: u8 = image[CARTRIDGE_TYPE];
        if kind != 0x00 {
            return Err(LoadError::UnsupportedMbc(kind));
        }
        if !matches_declared_size(image.len(), image[ROM_SIZE_CODE]) {
            return Err(LoadError::SizeMismatch);
        }
        if image[RAM_SIZE_CODE] != 0 {
            return Err(LoadError::ExternalRam);
        }
        self.rom = image;
        Ok(())
    }
}

impl MBC0 {
    /// A controller without a cartridge: every read gives 0xFF.
    pub fn new() -> (r: MBC0)
        ensures
            r.rom() == Seq::<u8>::empty(),
    {
        MBC0 { rom: Vec::new() }
    }

    /// Whether the header of `image` starts with the signature 0x00 0xC3.
    pub fn check_magic_number(image: &Vec<u8>) -> (r: bool)
        requires
            image@.len() >= HEADER_END,
        ensures
            r == (image@[0x0100] == 0x00 && image@[0x0101] == 0xC3),
    {
        image[0x0100] == 0x00 && image[0x0101] == 0xC3
    }

    /// The cartridge's title: the title bytes of the header without
    /// their zero padding; empty while no cartridge is held.
    pub fn game_title(&self) -> (r: Vec<u8>)
        ensures
            r@ == title_of(self.rom()),
    {
        let mut title: Vec<u8> = Vec::new();
        if self.rom.len() < HEADER_END {
            return title;
        }
        let ghost field = self.rom@.subrange(TITLE_START as int, TITLE_END as int);
        let mut i: usize = TITLE_START;
        while i < TITLE_END
            invariant
                TITLE_START <= i <= TITLE_END,
                self.rom@.len() >= HEADER_END,
                field == self.rom@.subrange(TITLE_START as int, TITLE_END as int),
                title@ == strip_nul(field.subrange(0, i - TITLE_START)),
            decreases TITLE_END - i,
        {
            let byte: u8 = self.rom[i];
            proof {
                let upto = field.subrange(0, i + 1 - TITLE_START);
                assert(upto.drop_last() == field.subrange(0, i - TITLE_START));
                assert(upto.last() == byte);
            }
            if byte != 0 {
                title.push(byte);
            }
            i = i + 1;
        }
        assert(field.subrange(0, TITLE_END - TITLE_START) == field);
        title
    }
}

/// A word written into the image is read back from it, wherever both of
/// its bytes lie inside the image.
pub proof fn lemma_rom_word_round_trip(before: MBC0, after: MBC0, address: u16, value: u16)
    requires
        after.rom() == before.rom_after_write_word(address, value),
        address < before.rom().len(),
        next_address(address) < before.rom().len(),
    ensures
        word_from(after.spec_read_byte(address), after.spec_read_byte(next_address(address))) == value,
{
}

} // verus!
