//! The memory bus behind the processor: cartridge, working RAM and high
//! RAM. Every other address is unmapped here: it reads as 0xFF and
//! ignores writes.

use vstd::prelude::*;
use crate::mbc::{LoadError, MBC, next_address, word_from};
use crate::mbc0::{MBC0, rom_byte, title_of};
use crate::memory_map::{HRAM_END, HRAM_START, RAM_END, RAM_START, ROM_END};

verus! {

pub const RAM_SIZE: usize = 0x2000;

pub const HRAM_SIZE: usize = 0x7F;

/// What an unmapped address reads as.
pub const OPEN_BUS: u8 = 0xFF;

pub struct MMU {
    pub(crate) mbc: MBC0,
    pub(crate) ram: [u8; RAM_SIZE],
    pub(crate) high_ram: [u8; HRAM_SIZE],
    pub dma_transfer: bool,
    pub dma_address: u16,
}

/// The bus as a value: the three memories and the pending transfer.
pub struct MmuView {
    pub rom: Seq<u8>,
    pub ram: Seq<u8>,
    pub high_ram: Seq<u8>,
    pub dma_transfer: bool,
    pub dma_address: u16,
}

pub open spec fn in_rom(address: u16) -> bool {
    address <= ROM_END
}

pub open spec fn in_ram(address: u16) -> bool {
    RAM_START <= address <= RAM_END
}

pub open spec fn in_high_ram(address: u16) -> bool {
    HRAM_START <= address <= HRAM_END
}

impl MmuView {
    /// The bus at power-on: no cartridge, the memories zero, no transfer
    /// pending.
    pub open spec fn power_on() -> MmuView {
        MmuView {
            rom: Seq::empty(),
            ram: Seq::new(RAM_SIZE as nat, |i: int| 0u8),
            high_ram: Seq::new(HRAM_SIZE as nat, |i: int| 0u8),
            dma_transfer: false,
            dma_address: 0,
        }
    }

    pub open spec fn wf(self) -> bool {
        self.ram.len() == RAM_SIZE && self.high_ram.len() == HRAM_SIZE
    }

    pub open spec fn read_byte(self, address: u16) -> u8 {
        if in_rom(address) {
            rom_byte(self.rom, address)
        } else if in_ram(address) {
            self.ram[address - RAM_START]
        } else if in_high_ram(address) {
            self.high_ram[address - HRAM_START]
        } else {
            OPEN_BUS
        }
    }

    pub open spec fn read_word(self, address: u16) -> u16 {
        word_from(self.read_byte(address), self.read_byte(next_address(address)))
    }

    pub open spec fn write_byte(self, address: u16, value: u8) -> MmuView {
        if in_ram(address) {
            MmuView { ram: self.ram.update(address - RAM_START, value), ..self }
        } else if in_high_ram(address) {
            MmuView { high_ram: self.high_ram.update(address - HRAM_START, value), ..self }
        } else {
            self
        }
    }

    pub open spec fn write_word(self, address: u16, value: u16) -> MmuView {
        self.write_byte(address, (value % 256) as u8).write_byte(next_address(address), (value / 256) as u8)
    }

    /// A transfer is pending from the page that `offset` names.
    pub open spec fn start_dma(self, offset: u8) -> MmuView {
        MmuView { dma_transfer: true, dma_address: (offset * 256) as u16, ..self }
    }
}

impl View for MMU {
    type V = MmuView;

    open(crate) spec fn view(&self) -> MmuView {
        MmuView {
            rom: self.mbc.rom(),
            ram: self.ram@,
            high_ram: self.high_ram@,
            dma_transfer: self.dma_transfer,
            dma_address: self.dma_address,
        }
    }
}

impl MMU {
    /// The memories of a bus have their fixed sizes.
    pub proof fn lemma_wf(&self)
        ensures
            self@.wf(),
    {
    }

    pub fn new() -> (r: MMU)
        ensures
            r@ == MmuView::power_on(),
    {
        let mmu = MMU { mbc: MBC0::new(), ram: [0; RAM_SIZE], high_ram: [0; HRAM_SIZE], dma_transfer: false, dma_address: 0 };
        assert(mmu@.ram =~= MmuView::power_on().ram);
        assert(mmu@.high_ram =~= MmuView::power_on().high_ram);
        mmu
    }

    pub fn read_byte(&self, address: u16) -> (r: u8)
        ensures
            r == self@.read_byte(address),
    {
        let a: usize = address as usize;
        if a <= ROM_END {
            self.mbc.read_byte(address)
        } else if RAM_START <= a && a <= RAM_END {
            self.ram[a - RAM_START]
        } else if HRAM_START <= a && a <= HRAM_END {
            self.high_ram[a - HRAM_START]
        } else {
            OPEN_BUS
        }
    }

    /// Two byte reads, the low byte at the lower address.
    pub fn read_word(&self, address: u16) -> (r: u16)
        ensures
            r == self@.read_word(address),
    {
        let low: u8 = self.read_byte(address);
        let high: u8 = self.read_byte(address.wrapping_add(1));
        (low as u16) + (high as u16) * 256
    }

    pub fn write_byte(&mut self, address: u16, value: u8)
        ensures
            final(self)@ == old(self)@.write_byte(address, value),
    {
        let a: usize = address as usize;
        if a <= ROM_END {
            self.mbc.write_byte(address, value);
        } else if RAM_START <= a && a <= RAM_END {
            self.ram[a - RAM_START] = value;
        } else if HRAM_START <= a && a <= HRAM_END {
            self.high_ram[a - HRAM_START] = value;
        }
    }

    /// Two byte writes, the low byte at the lower address.
    pub fn write_word(&mut self, address: u16, value: u16)
        ensures
            final(self)@ == old(self)@.write_word(address, value),
    {
        self.write_byte(address, (value % 256) as u8);
        self.write_byte(address.wrapping_add(1), (value / 256) as u8);
    }

    /// Takes `image` as the cartridge if its header is acceptable; the
    /// bus is left as it was if not.
    pub fn open_rom(&mut self, image: Vec<u8>) -> (r: Result<(), LoadError>)
        ensures
            match r {
                Ok(()) => MBC0::load_error(image@) is None && final(self)@ == (MmuView { rom: image@, ..old(self)@ }),
                Err(e) => MBC0::load_error(image@) == Some(e) && final(self)@ == old(self)@,
            },
    {
        self.mbc.open_rom(image)
    }

    /// The title of the cartridge, without its padding.
    pub fn game_title(&self) -> (r: Vec<u8>)
        ensures
            r@ == title_of(self@.rom),
    {
        self.mbc.game_title()
    }

    pub fn start_dma(&mut self, offset: u8)
        ensures
            final(self)@ == old(self)@.start_dma(offset),
    {
        self.dma_transfer = true;
        self.dma_address = (offset as u16) * 256;
    }
}

/// A word written to the bus is read back from it wherever both of its
/// bytes fall into working RAM or high RAM.
pub proof fn lemma_word_round_trip(bus: MmuView, address: u16, value: u16)
    requires
        bus.wf(),
        in_ram(address) || in_high_ram(address),
        in_ram(next_address(address)) || in_high_ram(next_address(address)),
    ensures
        bus.write_word(address, value).read_word(address) == value,
        bus.write_word(address, value).wf(),
{
}

/// A byte written to working RAM or high RAM is read back, and a write
/// changes what no other address reads.
pub proof fn lemma_byte_round_trip(bus: MmuView, address: u16, value: u8, other: u16)
    requires
        bus.wf(),
    ensures
        in_ram(address) || in_high_ram(address) ==> bus.write_byte(address, value).read_byte(address) == value,
        !(in_ram(address) || in_high_ram(address)) ==> bus.write_byte(address, value) == bus,
        other != address ==> bus.write_byte(address, value).read_byte(other) == bus.read_byte(other),
{
}

} // verus!
