//! The instruction engine: the bus as the processor sees it, fetch,
//! decode and execution of one instruction at a time.

use vstd::prelude::*;
use crate::alu::{
    add16, add8, clear_bit, rotate_left8, rotate_right8, shift_left_through, shift_right_through, sub16, sub8, swap_nibbles,
};
use crate::gpu::{GpuView, GPU, STAT_WRITABLE};
use crate::interrupt_controller::InterruptController;
use crate::joypad::Joypad;
use crate::link_cable::LinkCable;
use crate::mbc::{LoadError, MBC, next_address, word_from};
use crate::mbc0::MBC0;
use crate::memory_map::{
    BGP, DMA, IE, IF, JOYP, LCDC, LY, LYC, NR10, OAM_END, OAM_START, OBP0, OBP1, SB, SC, SCX, SCY, STAT,
    UNUSED_AREA_END, UNUSED_AREA_START, VRAM_END, VRAM_START, WPR_START, WX, WY,
};
use crate::mmu::{MmuView, MMU, OPEN_BUS};
use crate::registers::{dec16, inc16, CpuFlags, Registers};

verus! {

pub struct CPU {
    pub registers: Registers,
    pub mmu: MMU,
    pub interrupt_controller: InterruptController,
    pub gpu: GPU,
    pub(crate) link_cable: LinkCable,
    pub joypad: Joypad,
    /// Whether the opcode fetched next belongs to the extended table.
    pub cb_prefix: bool,
}

/// The machine as a value.
pub struct CpuView {
    pub registers: Registers,
    pub mmu: MmuView,
    pub interrupt_controller: InterruptController,
    pub gpu: GpuView,
    pub link_cable: LinkCable,
    pub joypad: Joypad,
    pub cb_prefix: bool,
}

/// An opcode that the engine does not execute, and the table it was
/// looked up in.
#[derive(Clone, Copy, Debug, PartialEq, Eq, Structural)]
pub struct UnimplementedOpcode {
    pub opcode: u8,
    pub prefixed: bool,
}

pub enum MBCType {
    MBC0,
}

pub open spec fn in_vram(address: u16) -> bool {
    VRAM_START <= address <= VRAM_END
}

pub open spec fn in_oam(address: u16) -> bool {
    OAM_START <= address <= OAM_END
}

pub open spec fn in_unused(address: u16) -> bool {
    UNUSED_AREA_START <= address <= UNUSED_AREA_END
}

/// The sound registers, whose writes are dropped.
pub open spec fn in_sound(address: u16) -> bool {
    NR10 <= address <= WPR_START
}

impl CpuView {
    /// The machine at power-on, without a cartridge.
    pub open spec fn power_on() -> CpuView {
        CpuView {
            registers: Registers::power_on(),
            mmu: MmuView::power_on(),
            interrupt_controller: InterruptController { interrupt_master_enable: false, ie: 0, iflag: 0 },
            gpu: GpuView::power_on(),
            link_cable: LinkCable { sb: 0, sc: 0 },
            joypad: Joypad { buttons_pressed: 0x0F, directions_pressed: 0x0F, joyp: 0, joypad_interrupt_req: false },
            cb_prefix: false,
        }
    }

    pub open spec fn wf(self) -> bool {
        self.mmu.wf() && self.gpu.wf()
    }

    /// What a read of `address` returns: video RAM and OAM from the
    /// pixel engine, 0xFF from the unusable region, the readable
    /// registers from their owners, everything else from the memory
    /// bus.
    #[verifier::opaque]
    pub open spec fn read_byte(self, address: u16) -> u8 {
        if in_vram(address) {
            self.gpu.vram[address - VRAM_START]
        } else if in_oam(address) {
            self.gpu.oam[address - OAM_START]
        } else if in_unused(address) {
            OPEN_BUS
        } else if address == JOYP {
            self.joypad.spec_joyp()
        } else if address == LCDC {
            self.gpu.lcdc
        } else if address == STAT {
            self.gpu.read_stat()
        } else if address == LY {
            self.gpu.line
        } else if address == IE {
            self.interrupt_controller.ie
        } else {
            self.mmu.read_byte(address)
        }
    }

    /// Two byte reads, the low byte at the lower address.
    pub open spec fn read_word(self, address: u16) -> u16 {
        word_from(self.read_byte(address), self.read_byte(next_address(address)))
    }

    /// The machine after `value` was written to `address`.
    #[verifier::opaque]
    pub open spec fn write_byte(self, address: u16, value: u8) -> CpuView {
        if in_vram(address) {
            CpuView { gpu: GpuView { vram: self.gpu.vram.update(address - VRAM_START, value), ..self.gpu }, ..self }
        } else if in_oam(address) {
            CpuView { gpu: GpuView { oam: self.gpu.oam.update(address - OAM_START, value), ..self.gpu }, ..self }
        } else if in_unused(address) {
            self
        } else if address == JOYP {
            CpuView { joypad: self.joypad.after_select(value), ..self }
        } else if in_sound(address) {
            self
        } else if address == LCDC {
            CpuView { gpu: GpuView { lcdc: value, ..self.gpu }, ..self }
        } else if address == STAT {
            CpuView { gpu: GpuView { stat: value & STAT_WRITABLE, ..self.gpu }, ..self }
        } else if address == SCY {
            CpuView { gpu: GpuView { scy: value, ..self.gpu }, ..self }
        } else if address == SCX {
            CpuView { gpu: GpuView { scx: value, ..self.gpu }, ..self }
        } else if address == LYC {
            CpuView { gpu: GpuView { lyc: value, ..self.gpu }, ..self }
        } else if address == WY {
            CpuView { gpu: GpuView { wy: value, ..self.gpu }, ..self }
        } else if address == WX {
            CpuView { gpu: GpuView { wx: value, ..self.gpu }, ..self }
        } else if address == DMA {
            CpuView { mmu: self.mmu.start_dma(value), ..self }
        } else if address == BGP {
            CpuView { gpu: GpuView { bgp: value, ..self.gpu }, ..self }
        } else if address == OBP0 {
            CpuView { gpu: GpuView { obp0: value, ..self.gpu }, ..self }
        } else if address == OBP1 {
            CpuView { gpu: GpuView { obp1: value, ..self.gpu }, ..self }
        } else if address == SB {
            CpuView { link_cable: LinkCable { sb: value, ..self.link_cable }, ..self }
        } else if address == SC {
            CpuView { link_cable: LinkCable { sc: value, ..self.link_cable }, ..self }
        } else if address == IF {
            CpuView { interrupt_controller: InterruptController { iflag: value, ..self.interrupt_controller }, ..self }
        } else if address == IE {
            CpuView { interrupt_controller: InterruptController { ie: value, ..self.interrupt_controller }, ..self }
        } else {
            CpuView { mmu: self.mmu.write_byte(address, value), ..self }
        }
    }

    /// Two byte writes, the low byte at the lower address.
    pub open spec fn write_word(self, address: u16, value: u16) -> CpuView {
        self.write_byte(address, (value % 256) as u8).write_byte(next_address(address), (value / 256) as u8)
    }

    pub open spec fn with_registers(self, registers: Registers) -> CpuView {
        CpuView { registers, ..self }
    }

    pub open spec fn with_pc(self, pc: u16) -> CpuView {
        CpuView { registers: Registers { pc, ..self.registers }, ..self }
    }

    pub open spec fn with_sp(self, sp: u16) -> CpuView {
        CpuView { registers: Registers { sp, ..self.registers }, ..self }
    }

    /// The byte at PC, and the machine with PC moved past it.
    pub open spec fn fetch_byte(self) -> (CpuView, u8) {
        (self.with_pc(inc16(self.registers.pc)), self.read_byte(self.registers.pc))
    }

    /// The word at PC, and the machine with PC moved past it.
    pub open spec fn fetch_word(self) -> (CpuView, u16) {
        (self.with_pc(inc16(inc16(self.registers.pc))), self.read_word(self.registers.pc))
    }

    /// The machine after `value` was pushed: SP goes down by 2 first,
    /// and the low byte lies at the lower address.
    pub open spec fn push(self, value: u16) -> CpuView {
        let sp = sub16(self.registers.sp, 2);
        self.write_word(sp, value).with_sp(sp)
    }

    /// The word on top of the stack, and the machine with SP moved up
    /// by 2.
    pub open spec fn pop(self) -> (CpuView, u16) {
        (self.with_sp(add16(self.registers.sp, 2)), self.read_word(self.registers.sp))
    }
}

impl View for CPU {
    type V = CpuView;

    open(crate) spec fn view(&self) -> CpuView {
        CpuView {
            registers: self.registers,
            mmu: self.mmu@,
            interrupt_controller: self.interrupt_controller,
            gpu: self.gpu@,
            link_cable: self.link_cable,
            joypad: self.joypad,
            cb_prefix: self.cb_prefix,
        }
    }
}

impl CPU {
    /// The memories of a machine have their fixed sizes.
    pub proof fn lemma_wf(&self)
        ensures
            self@.wf(),
    {
    }

    pub fn new() -> (r: CPU)
        ensures
            r@ == CpuView::power_on(),
    {
        CPU {
            registers: Registers::new(),
            mmu: MMU::new(),
            interrupt_controller: InterruptController::new(),
            gpu: GPU::new(),
            link_cable: LinkCable::new(),
            joypad: Joypad::new(),
            cb_prefix: false,
        }
    }

    /// There is one kind of cartridge, so there is nothing to swap.
    pub fn swap_mbc(mbc_type: MBCType) {
        match mbc_type {
            MBCType::MBC0 => {},
        }
    }

    /// Takes `image` as the cartridge if its header is acceptable; the
    /// machine is left as it was if not.
    pub fn open_rom(&mut self, image: Vec<u8>) -> (r: Result<(), LoadError>)
        ensures
            match r {
                Ok(()) => MBC0::load_error(image@) is None && final(self)@ == (CpuView {
                    mmu: MmuView { rom: image@, ..old(self)@.mmu },
                    ..old(self)@
                }),
                Err(e) => MBC0::load_error(image@) == Some(e) && final(self)@ == old(self)@,
            },
    {
        self.mmu.open_rom(image)
    }

    pub fn read_byte(&self, address: u16) -> (r: u8)
        ensures
            r == self@.read_byte(address),
    {
        reveal(CpuView::read_byte);
        let a: usize = address as usize;
        if VRAM_START <= a && a <= VRAM_END {
            self.gpu.read_byte_vram(a - VRAM_START)
        } else if OAM_START <= a && a <= OAM_END {
            self.gpu.read_byte_oam(a - OAM_START)
        } else if UNUSED_AREA_START <= a && a <= UNUSED_AREA_END {
            OPEN_BUS
        } else if a == JOYP {
            self.joypad.joyp()
        } else if a == LCDC {
            self.gpu.lcdc()
        } else if a == STAT {
            self.gpu.stat()
        } else if a == LY {
            self.gpu.ly()
        } else if a == IE {
            self.interrupt_controller.ie()
        } else {
            self.mmu.read_byte(address)
        }
    }

    pub fn read_word(&self, address: u16) -> (r: u16)
        ensures
            r == self@.read_word(address),
    {
        let low: u8 = self.read_byte(address);
        let high: u8 = self.read_byte(address.wrapping_add(1));
        (low as u16) + (high as u16) * 256
    }

    pub fn write_byte(&mut self, address: u16, value: u8)
        ensures
            final(self)@ == old(self)@.write_byte(address, value),
    {
        reveal(CpuView::write_byte);
        let a: usize = address as usize;
        if VRAM_START <= a && a <= VRAM_END {
            self.gpu.write_byte_vram(a - VRAM_START, value);
        } else if OAM_START <= a && a <= OAM_END {
            self.gpu.write_byte_oam(a - OAM_START, value);
        } else if UNUSED_AREA_START <= a && a <= UNUSED_AREA_END {
        } else if a == JOYP {
            self.joypad.set_joyp(value);
        } else if NR10 <= a && a <= WPR_START {
        } else if a == LCDC {
            self.gpu.set_lcdc(value);
        } else if a == STAT {
            self.gpu.set_stat(value);
        } else if a == SCY {
            self.gpu.set_scy(value);
        } else if a == SCX {
            self.gpu.set_scx(value);
        } else if a == LYC {
            self.gpu.set_lyc(value);
        } else if a == WY {
            self.gpu.set_wy(value);
        } else if a == WX {
            self.gpu.set_wx(value);
        } else if a == DMA {
            self.mmu.start_dma(value);
        } else if a == BGP {
            self.gpu.set_bgp(value);
        } else if a == OBP0 {
            self.gpu.set_obp0(value);
        } else if a == OBP1 {
            self.gpu.set_obp1(value);
        } else if a == SB {
            self.link_cable.set_sb(value);
        } else if a == SC {
            self.link_cable.set_sc(value);
        } else if a == IF {
            self.interrupt_controller.set_iflag(value);
        } else if a == IE {
            self.interrupt_controller.set_ie(value);
        } else {
            self.mmu.write_byte(address, value);
        }
    }

    pub fn write_word(&mut self, address: u16, value: u16)
        ensures
            final(self)@ == old(self)@.write_word(address, value),
    {
        self.write_byte(address, (value % 256) as u8);
        self.write_byte(address.wrapping_add(1), (value / 256) as u8);
    }

    pub fn fetch_byte(&mut self) -> (r: u8)
        ensures
            (final(self)@, r) == old(self)@.fetch_byte(),
    {
        let byte: u8 = self.read_byte(self.registers.pc);
        self.registers.pc = self.registers.pc.wrapping_add(1);
        byte
    }

    pub fn fetch_word(&mut self) -> (r: u16)
        ensures
            (final(self)@, r) == old(self)@.fetch_word(),
    {
        let word: u16 = self.read_word(self.registers.pc);
        self.registers.pc = self.registers.pc.wrapping_add(2);
        word
    }

    pub fn push_to_stack(&mut self, value: u16)
        ensures
            final(self)@ == old(self)@.push(value),
    {
        let new_sp: u16 = self.registers.sp.wrapping_sub(2);
        self.write_word(new_sp, value);
        self.registers.sp = new_sp;
    }

    pub fn pop_from_stack(&mut self) -> (r: u16)
        ensures
            (final(self)@, r) == old(self)@.pop(),
    {
        let value: u16 = self.read_word(self.registers.sp);
        self.registers.sp = self.registers.sp.wrapping_add(2);
        value
    }
}

/// The register or memory operand that a 3-bit field selects costs one
/// more cycle when it is the byte at HL.
pub open spec fn memory_cost(index: u8) -> u8 {
    if index == 6 { 1 } else { 0 }
}

/// The offset byte of a relative jump as a signed number.
pub open spec fn signed_offset(offset: u8) -> int {
    if offset < 128 { offset as int } else { offset - 256 }
}

/// The target of a relative jump: the offset is added to the PC that
/// follows the offset byte, modulo 2^16.
pub open spec fn jr_target(pc: u16, offset: u8) -> u16 {
    ((pc + signed_offset(offset)) % 0x10000) as u16
}

/// The bits 3 to 5 of an opcode.
pub open spec fn field_y(opcode: u8) -> u8 {
    ((opcode / 8) % 8) as u8
}

/// The bits 0 to 2 of an opcode.
pub open spec fn field_z(opcode: u8) -> u8 {
    (opcode % 8) as u8
}

/// What one of the eight arithmetic and logic operations leaves in the
/// registers: ADD, ADC, SUB, SBC, AND, XOR, OR, CP.
pub open spec fn alu_result(registers: Registers, operation: u8, operand: u8) -> Registers {
    if operation == 0 {
        registers.after_add(operand)
    } else if operation == 1 {
        registers.after_adc(operand)
    } else if operation == 2 {
        registers.after_sub(operand)
    } else if operation == 3 {
        registers.after_sbc(operand)
    } else if operation == 4 {
        registers.after_and(operand)
    } else if operation == 5 {
        registers.after_xor(operand)
    } else if operation == 6 {
        registers.after_or(operand)
    } else {
        registers.after_cp(operand)
    }
}

impl CpuView {
    /// The operand that a 3-bit field selects: B, C, D, E, H, L, the
    /// byte at HL, A.
    pub open spec fn operand(self, index: u8) -> u8 {
        if index == 6 {
            self.read_byte(self.registers.spec_hl())
        } else {
            self.registers.spec_register(index)
        }
    }

    /// The machine with `value` stored in the operand that `index`
    /// selects.
    pub open spec fn with_operand(self, index: u8, value: u8) -> CpuView {
        if index == 6 {
            self.write_byte(self.registers.spec_hl(), value)
        } else {
            self.with_registers(self.registers.with_register(index, value))
        }
    }

    /// One of the register pairs BC, DE, HL, SP.
    pub open spec fn pair(self, rp: u8) -> u16 {
        if rp == 0 {
            self.registers.spec_bc()
        } else if rp == 1 {
            self.registers.spec_de()
        } else if rp == 2 {
            self.registers.spec_hl()
        } else {
            self.registers.sp
        }
    }

    pub open spec fn with_pair(self, rp: u8, value: u16) -> CpuView {
        if rp == 0 {
            self.with_registers(self.registers.with_bc(value))
        } else if rp == 1 {
            self.with_registers(self.registers.with_de(value))
        } else if rp == 2 {
            self.with_registers(self.registers.with_hl(value))
        } else {
            self.with_sp(value)
        }
    }

    /// One of the register pairs BC, DE, HL, AF, as the stack
    /// instructions name them.
    pub open spec fn stack_pair(self, rp: u8) -> u16 {
        if rp == 3 { self.registers.spec_af() } else { self.pair(rp) }
    }

    pub open spec fn with_stack_pair(self, rp: u8, value: u16) -> CpuView {
        if rp == 3 { self.with_registers(self.registers.with_af(value)) } else { self.with_pair(rp, value) }
    }

    /// One of the conditions NZ, Z, NC, C.
    pub open spec fn condition(self, cc: u8) -> bool {
        if cc == 0 {
            !self.registers.zero
        } else if cc == 1 {
            self.registers.zero
        } else if cc == 2 {
            !self.registers.carry
        } else {
            self.registers.carry
        }
    }

    /// `LD r, r'`: 1 cycle, and one more for a memory operand.
    pub open spec fn load(self, opcode: u8) -> (CpuView, u8) {
        let destination = field_y(opcode);
        let source = field_z(opcode);
        (self.with_operand(destination, self.operand(source)), (1 + memory_cost(source) + memory_cost(destination)) as u8)
    }

    /// An arithmetic or logic operation on A and the operand that the
    /// opcode selects: 1 cycle, and one more for the memory operand.
    pub open spec fn alu(self, opcode: u8) -> (CpuView, u8) {
        let source = field_z(opcode);
        (self.with_registers(alu_result(self.registers, field_y(opcode), self.operand(source))), (1 + memory_cost(source)) as u8)
    }

    /// A relative jump: the offset byte is consumed in any case; the
    /// jump costs 3 cycles if taken and 2 if not.
    pub open spec fn jump_relative(self, taken: bool) -> (CpuView, u8) {
        let (fetched, offset) = self.fetch_byte();
        if taken {
            (fetched.with_pc(jr_target(fetched.registers.pc, offset)), 3)
        } else {
            (fetched, 2)
        }
    }

    /// A return: the word on top of the stack becomes PC.
    pub open spec fn ret(self) -> CpuView {
        let (popped, address) = self.pop();
        popped.with_pc(address)
    }

    /// A call: PC, which already points behind the operand, is pushed,
    /// and `address` becomes PC.
    pub open spec fn call(self, address: u16) -> CpuView {
        self.push(self.registers.pc).with_pc(address)
    }

    /// An instruction of the extended table. The prefix has cost 1
    /// cycle already; a register operand costs 1 more, the byte at HL
    /// costs 3.
    pub open spec fn execute_prefixed(self, opcode: u8) -> (CpuView, Result<u8, UnimplementedOpcode>) {
        let index = field_z(opcode);
        let value = self.operand(index);
        let cycles = (1 + 2 * memory_cost(index)) as u8;
        if opcode < 0x08 {
            let rotated = rotate_left8(value);
            (self.with_registers(self.registers.after_rotate(rotated, value >= 128)).with_operand(index, rotated), Ok(cycles))
        } else if opcode < 0x10 {
            let rotated = rotate_right8(value);
            (
                self.with_registers(self.registers.after_rotate(rotated, value % 2 == 1)).with_operand(index, rotated),
                Ok(cycles),
            )
        } else if 0x30 <= opcode < 0x38 {
            (self.with_operand(index, swap_nibbles(value)), Ok(cycles))
        } else if 0x80 <= opcode < 0xC0 {
            (self.with_operand(index, clear_bit(value, field_y(opcode))), Ok(cycles))
        } else {
            (self, Err(UnimplementedOpcode { opcode, prefixed: true }))
        }
    }
}

/// The number of the half-row of an opcode, counted from the row
/// `offset`: for the first of four rows that share a layout, the bits 3
/// to 5 of the opcode.
pub fn parse_destination_register(opcode: u8, offset: u8) -> (r: u8)
    requires
        offset <= opcode / 16,
    ensures
        r == (opcode / 16 - offset) * 2 + (opcode / 8) % 2,
        offset % 4 == 0 && opcode / 16 < offset + 4 ==> r == field_y(opcode),
{
    ((opcode / 16) - offset) * 2 + (opcode / 8) % 2
}

/// The bits 0 to 2 of an opcode.
pub fn parse_source_register_index(opcode: u8) -> (r: u8)
    ensures
        r == field_z(opcode),
{
    opcode % 8
}

impl CPU {
    pub fn get_byte_at_hl(&self) -> (r: u8)
        ensures
            r == self@.read_byte(self@.registers.spec_hl()),
    {
        self.read_byte(self.registers.hl())
    }

    pub fn get_word_at_hl(&self) -> (r: u16)
        ensures
            r == self@.read_word(self@.registers.spec_hl()),
    {
        self.read_word(self.registers.hl())
    }

    pub fn set_byte_at_hl(&mut self, value: u8)
        ensures
            final(self)@ == old(self)@.write_byte(old(self)@.registers.spec_hl(), value),
    {
        self.write_byte(self.registers.hl(), value)
    }

    pub fn set_word_at_hl(&mut self, value: u16)
        ensures
            final(self)@ == old(self)@.write_word(old(self)@.registers.spec_hl(), value),
    {
        self.write_word(self.registers.hl(), value)
    }

    /// The operand that the low three bits of `opcode` select, and the
    /// cycles that reading it takes.
    pub fn get_operand_and_cycles(&self, opcode: u8) -> (r: (u8, u8))
        ensures
            r.0 == self@.operand(field_z(opcode)),
            r.1 == 1 + memory_cost(field_z(opcode)),
    {
        let source_register: u8 = parse_source_register_index(opcode);
        if source_register == 0x06 {
            (self.get_byte_at_hl(), 2)
        } else {
            (self.registers.get_register_by_index(source_register), 1)
        }
    }

    /// Stores `value` in the operand that `index` selects.
    pub fn write_operand(&mut self, index: u8, value: u8)
        requires
            index < 8,
        ensures
            final(self)@ == old(self)@.with_operand(index, value),
    {
        if index == 0x06 {
            self.write_byte(self.registers.hl(), value);
        } else {
            self.registers.set_register_by_index(index, value);
        }
    }

    /// Stores `value` in the operand that the low three bits of
    /// `opcode` select, and returns the cycles that writing it takes.
    pub fn write_to_register(&mut self, opcode: u8, value: u8) -> (r: u8)
        ensures
            final(self)@ == old(self)@.with_operand(field_z(opcode), value),
            r == memory_cost(field_z(opcode)),
    {
        let destination_register: u8 = parse_source_register_index(opcode);
        self.write_operand(destination_register, value);
        if destination_register == 0x06 { 1 } else { 0 }
    }

    pub fn register_movement(&mut self, opcode: u8) -> (r: u8)
        requires
            0x40 <= opcode < 0x80,
            opcode != 0x76,
        ensures
            (final(self)@, r) == old(self)@.load(opcode),
    {
        let destination_register: u8 = parse_destination_register(opcode, 0x04);
        let source_register: u8 = parse_source_register_index(opcode);
        if destination_register == source_register {
            return 1;
        }
        if source_register == 0x06 {
            let value: u8 = self.read_byte(self.registers.hl());
            self.registers.set_register_by_index(destination_register, value);
            2
        } else if destination_register == 0x06 {
            let value: u8 = self.registers.get_register_by_index(source_register);
            self.write_byte(self.registers.hl(), value);
            2
        } else {
            let value: u8 = self.registers.get_register_by_index(source_register);
            self.registers.set_register_by_index(destination_register, value);
            1
        }
    }

    pub fn alu_add8(&mut self, opcode: u8) -> (r: u8)
        ensures
            final(self)@ == old(self)@.with_registers(old(self)@.registers.after_add(old(self)@.operand(field_z(opcode)))),
            r == 1 + memory_cost(field_z(opcode)),
    {
        let operand_cycles: (u8, u8) = self.get_operand_and_cycles(opcode);
        self.registers.alu_add(operand_cycles.0);
        operand_cycles.1
    }

    pub fn alu_adc8(&mut self, opcode: u8) -> (r: u8)
        ensures
            final(self)@ == old(self)@.with_registers(old(self)@.registers.after_adc(old(self)@.operand(field_z(opcode)))),
            r == 1 + memory_cost(field_z(opcode)),
    {
        let operand_cycles: (u8, u8) = self.get_operand_and_cycles(opcode);
        self.registers.alu_adc(operand_cycles.0);
        operand_cycles.1
    }

    pub fn sub8_opcode(&mut self, opcode: u8) -> (r: u8)
        ensures
            final(self)@ == old(self)@.with_registers(old(self)@.registers.after_sub(old(self)@.operand(field_z(opcode)))),
            r == 1 + memory_cost(field_z(opcode)),
    {
        let operand_cycles: (u8, u8) = self.get_operand_and_cycles(opcode);
        self.registers.alu_sub8(operand_cycles.0);
        operand_cycles.1
    }

    pub fn alu_sbc8(&mut self, opcode: u8) -> (r: u8)
        ensures
            final(self)@ == old(self)@.with_registers(old(self)@.registers.after_sbc(old(self)@.operand(field_z(opcode)))),
            r == 1 + memory_cost(field_z(opcode)),
    {
        let operand_cycles: (u8, u8) = self.get_operand_and_cycles(opcode);
        self.registers.alu_sbc(operand_cycles.0);
        operand_cycles.1
    }

    pub fn and_opcode(&mut self, opcode: u8) -> (r: u8)
        ensures
            final(self)@ == old(self)@.with_registers(old(self)@.registers.after_and(old(self)@.operand(field_z(opcode)))),
            r == 1 + memory_cost(field_z(opcode)),
    {
        let operand_cycles: (u8, u8) = self.get_operand_and_cycles(opcode);
        self.registers.alu_and(operand_cycles.0);
        operand_cycles.1
    }

    pub fn xor_opcode(&mut self, opcode: u8) -> (r: u8)
        ensures
            final(self)@ == old(self)@.with_registers(old(self)@.registers.after_xor(old(self)@.operand(field_z(opcode)))),
            r == 1 + memory_cost(field_z(opcode)),
    {
        let operand_cycles: (u8, u8) = self.get_operand_and_cycles(opcode);
        self.registers.alu_xor(operand_cycles.0);
        operand_cycles.1
    }

    pub fn or_opcode(&mut self, opcode: u8) -> (r: u8)
        ensures
            final(self)@ == old(self)@.with_registers(old(self)@.registers.after_or(old(self)@.operand(field_z(opcode)))),
            r == 1 + memory_cost(field_z(opcode)),
    {
        let operand_cycles: (u8, u8) = self.get_operand_and_cycles(opcode);
        self.registers.alu_or(operand_cycles.0);
        operand_cycles.1
    }

    /// Rotates the operand left by one bit.
    pub fn rlc_opcode(&mut self, opcode: u8) -> (r: u8)
        ensures
            final(self)@ == ({
                let value = old(self)@.operand(field_z(opcode));
                old(self)@.with_registers(old(self)@.registers.after_rotate(rotate_left8(value), value >= 128)).with_operand(
                    field_z(opcode),
                    rotate_left8(value),
                )
            }),
            r == 1 + 2 * memory_cost(field_z(opcode)),
    {
        let operand_cycles: (u8, u8) = self.get_operand_and_cycles(opcode);
        let r_value: u8 = self.registers.alu_rlca(operand_cycles.0);
        operand_cycles.1 + self.write_to_register(opcode, r_value)
    }

    /// Rotates the operand right by one bit.
    pub fn rrc_opcode(&mut self, opcode: u8) -> (r: u8)
        ensures
            final(self)@ == ({
                let value = old(self)@.operand(field_z(opcode));
                old(self)@.with_registers(
                    old(self)@.registers.after_rotate(rotate_right8(value), value % 2 == 1),
                ).with_operand(field_z(opcode), rotate_right8(value))
            }),
            r == 1 + 2 * memory_cost(field_z(opcode)),
    {
        let operand_cycles: (u8, u8) = self.get_operand_and_cycles(opcode);
        let r_value: u8 = self.registers.alu_rrca(operand_cycles.0);
        operand_cycles.1 + self.write_to_register(opcode, r_value)
    }

    /// Exchanges the nibbles of the operand; the flags are kept.
    pub fn swap_opcode(&mut self, opcode: u8) -> (r: u8)
        ensures
            final(self)@ == old(self)@.with_operand(field_z(opcode), swap_nibbles(old(self)@.operand(field_z(opcode)))),
            r == 1 + 2 * memory_cost(field_z(opcode)),
    {
        let operand_cycles: (u8, u8) = self.get_operand_and_cycles(opcode);
        let operand: u8 = operand_cycles.0;
        let swap_value: u8 = operand / 16 + (operand % 16) * 16;
        operand_cycles.1 + self.write_to_register(opcode, swap_value)
    }

    /// Clears bit `bit` of the operand; the flags are kept.
    pub fn res_opcode(&mut self, opcode: u8, bit: u8) -> (r: u8)
        requires
            bit < 8,
        ensures
            final(self)@ == old(self)@.with_operand(field_z(opcode), clear_bit(old(self)@.operand(field_z(opcode)), bit)),
            r == 1 + 2 * memory_cost(field_z(opcode)),
    {
        let operand_cycles: (u8, u8) = self.get_operand_and_cycles(opcode);
        let value: u8 = operand_cycles.0 & !(1u8 << bit);
        operand_cycles.1 + self.write_to_register(opcode, value)
    }

    pub fn jump_to(&mut self, address: u16)
        ensures
            final(self)@ == old(self)@.with_pc(address),
    {
        self.registers.pc = address;
    }

    /// Consumes the offset byte and returns the target of the jump.
    pub fn calculate_jr_address(&mut self) -> (r: u16)
        ensures
            final(self)@ == old(self)@.fetch_byte().0,
            r == jr_target(final(self)@.registers.pc, old(self)@.fetch_byte().1),
    {
        let offset: u8 = self.fetch_byte();
        let pc: u16 = self.registers.pc;
        if offset < 128 {
            pc.wrapping_add(offset as u16)
        } else {
            pc.wrapping_sub(256 - offset as u16)
        }
    }

    /// A relative jump that is taken while `flag` is set.
    pub fn jr_if_flag(&mut self, flag: CpuFlags) -> (r: u8)
        ensures
            (final(self)@, r) == old(self)@.jump_relative(old(self)@.registers.spec_get_flag(flag)),
    {
        let address: u16 = self.calculate_jr_address();
        if self.registers.get_flag(flag) {
            self.jump_to(address);
            3
        } else {
            2
        }
    }

    /// A relative jump that is taken while `flag` is clear.
    pub fn jr_if_nflag(&mut self, flag: CpuFlags) -> (r: u8)
        ensures
            (final(self)@, r) == old(self)@.jump_relative(!old(self)@.registers.spec_get_flag(flag)),
    {
        let address: u16 = self.calculate_jr_address();
        if !self.registers.get_flag(flag) {
            self.jump_to(address);
            3
        } else {
            2
        }
    }

    /// An absolute jump that is taken while `flag` is set: 4 cycles if
    /// taken, 3 if not.
    pub fn jp_if_flag(&mut self, address: u16, flag: CpuFlags) -> (r: u8)
        ensures
            final(self)@ == (if old(self)@.registers.spec_get_flag(flag) { old(self)@.with_pc(address) } else { old(self)@ }),
            r == (if old(self)@.registers.spec_get_flag(flag) { 4u8 } else { 3u8 }),
    {
        if self.registers.get_flag(flag) {
            self.jump_to(address);
            4
        } else {
            3
        }
    }

    pub fn ret(&mut self)
        ensures
            final(self)@ == old(self)@.ret(),
    {
        let address: u16 = self.pop_from_stack();
        self.jump_to(address);
    }

    /// A return that is taken while `flag` is set: 5 cycles if taken, 2
    /// if not.
    pub fn ret_if_flag(&mut self, flag: CpuFlags) -> (r: u8)
        ensures
            final(self)@ == (if old(self)@.registers.spec_get_flag(flag) { old(self)@.ret() } else { old(self)@ }),
            r == (if old(self)@.registers.spec_get_flag(flag) { 5u8 } else { 2u8 }),
    {
        if self.registers.get_flag(flag) {
            self.ret();
            5
        } else {
            2
        }
    }

    pub fn call(&mut self, address: u16)
        ensures
            final(self)@ == old(self)@.call(address),
    {
        self.push_to_stack(self.registers.pc);
        self.jump_to(address);
    }

    /// A call to the fixed address `offset`.
    pub fn rst(&mut self, offset: u8)
        ensures
            final(self)@ == old(self)@.call(offset as u16),
    {
        self.push_to_stack(self.registers.pc);
        self.jump_to(offset as u16);
    }
}

/// Whether the engine executes `opcode` of the primary table.
pub open spec fn is_implemented(opcode: u8) -> bool {
    if opcode < 0x40 {
        opcode != 0x10 && opcode != 0x27 && opcode != 0x37
    } else if opcode < 0x80 {
        opcode != 0x76
    } else if opcode < 0xC0 {
        opcode < 0xB8
    } else {
        opcode == 0xC0 || opcode == 0xC1 || opcode == 0xC3 || opcode == 0xC5 || opcode == 0xC8 || opcode == 0xC9 || opcode
            == 0xCA || opcode == 0xCB || opcode == 0xCD || opcode == 0xD1 || opcode == 0xD5 || opcode == 0xD9 || opcode
            == 0xE0 || opcode == 0xE1 || opcode == 0xE2 || opcode == 0xE5 || opcode == 0xE6 || opcode == 0xE9 || opcode
            == 0xEA || opcode == 0xEF || opcode == 0xF0 || opcode == 0xF1 || opcode == 0xF3 || opcode == 0xF5 || opcode
            == 0xFA || opcode == 0xFB || opcode == 0xFE
    }
}

/// Whether the engine executes `opcode` of the extended table.
pub open spec fn is_implemented_prefixed(opcode: u8) -> bool {
    opcode < 0x10 || 0x30 <= opcode < 0x38 || 0x80 <= opcode < 0xC0
}

impl CpuView {
    pub open spec fn with_a(self, value: u8) -> CpuView {
        self.with_registers(Registers { a: value, ..self.registers })
    }

    pub open spec fn unimplemented(self, opcode: u8) -> (CpuView, Result<u8, UnimplementedOpcode>) {
        (self, Err(UnimplementedOpcode { opcode, prefixed: false }))
    }

    /// The opcodes 0x00 to 0x3F, by their column.
    pub open spec fn execute_block0(self, opcode: u8) -> (CpuView, Result<u8, UnimplementedOpcode>) {
        let y = field_y(opcode);
        let z = field_z(opcode);
        let rp = (y / 2) as u8;
        let registers = self.registers;
        if z == 0 {
            if y == 0 {
                // NOP
                (self, Ok(1))
            } else if y == 1 {
                // LD (a16), SP
                let (fetched, address) = self.fetch_word();
                (fetched.write_word(address, registers.sp), Ok(5))
            } else if y == 2 {
                self.unimplemented(opcode)
            } else {
                // JR r8; JR NZ / Z / NC / C, r8
                let jumped = self.jump_relative(y == 3 || self.condition((y - 4) as u8));
                (jumped.0, Ok(jumped.1))
            }
        } else if z == 1 {
            if y % 2 == 0 {
                // LD rr, d16
                let (fetched, value) = self.fetch_word();
                (fetched.with_pair(rp, value), Ok(3))
            } else {
                // ADD HL, rr
                let hl = registers.spec_hl();
                let other = self.pair(rp);
                (self.with_registers(registers.after_add16(hl, other).with_hl(add16(hl, other))), Ok(2))
            }
        } else if z == 2 {
            // LD (BC), A; LD (DE), A; LD (HL+), A; LD (HL-), A and their
            // reverses
            let hl = registers.spec_hl();
            let address = if rp == 0 {
                registers.spec_bc()
            } else if rp == 1 {
                registers.spec_de()
            } else {
                hl
            };
            let moved = if rp == 2 {
                self.with_registers(registers.with_hl(inc16(hl)))
            } else if rp == 3 {
                self.with_registers(registers.with_hl(dec16(hl)))
            } else {
                self
            };
            if y % 2 == 0 {
                (moved.write_byte(address, registers.a), Ok(2))
            } else {
                (moved.with_a(moved.read_byte(address)), Ok(2))
            }
        } else if z == 3 {
            // INC rr; DEC rr
            if y % 2 == 0 {
                (self.with_pair(rp, inc16(self.pair(rp))), Ok(2))
            } else {
                (self.with_pair(rp, dec16(self.pair(rp))), Ok(2))
            }
        } else if z == 4 {
            // INC r
            let value = self.operand(y);
            (self.with_registers(registers.after_inc(value)).with_operand(y, add8(value, 1)), Ok((1 + 2 * memory_cost(y)) as u8))
        } else if z == 5 {
            // DEC r
            let value = self.operand(y);
            (self.with_registers(registers.after_dec(value)).with_operand(y, sub8(value, 1)), Ok((1 + 2 * memory_cost(y)) as u8))
        } else if z == 6 {
            // LD r, d8
            let (fetched, value) = self.fetch_byte();
            (fetched.with_operand(y, value), Ok((2 + memory_cost(y)) as u8))
        } else if y == 0 {
            // RLCA
            let rotated = rotate_left8(registers.a);
            (self.with_registers(registers.after_rotate(rotated, registers.a >= 128)).with_a(rotated), Ok(1))
        } else if y == 1 {
            // RRCA
            let rotated = rotate_right8(registers.a);
            (self.with_registers(registers.after_rotate(rotated, registers.a % 2 == 1)).with_a(rotated), Ok(1))
        } else if y == 2 {
            // RLA
            let rotated = shift_left_through(registers.a, registers.carry);
            (self.with_registers(registers.after_rotate(rotated, registers.a >= 128)).with_a(rotated), Ok(1))
        } else if y == 3 {
            // RRA
            let rotated = shift_right_through(registers.a, registers.carry);
            (self.with_registers(registers.after_rotate(rotated, registers.a % 2 == 1)).with_a(rotated), Ok(1))
        } else if y == 5 {
            // CPL
            (self.with_registers(registers.after_cpl()), Ok(1))
        } else if y == 7 {
            // CCF
            (self.with_registers(registers.after_ccf()), Ok(1))
        } else {
            self.unimplemented(opcode)
        }
    }

    /// The opcodes 0xC0 to 0xFF.
    pub open spec fn execute_block3(self, opcode: u8) -> (CpuView, Result<u8, UnimplementedOpcode>) {
        let registers = self.registers;
        let rp = ((opcode / 16) % 4) as u8;
        if opcode == 0xC0 || opcode == 0xC8 {
            // RET NZ; RET Z
            if self.condition(field_y(opcode)) {
                (self.ret(), Ok(5))
            } else {
                (self, Ok(2))
            }
        } else if opcode == 0xC1 || opcode == 0xD1 || opcode == 0xE1 || opcode == 0xF1 {
            // POP rr
            let (popped, value) = self.pop();
            (popped.with_stack_pair(rp, value), Ok(3))
        } else if opcode == 0xC5 || opcode == 0xD5 || opcode == 0xE5 || opcode == 0xF5 {
            // PUSH rr
            (self.push(self.stack_pair(rp)), Ok(4))
        } else if opcode == 0xC3 {
            // JP a16
            let (fetched, address) = self.fetch_word();
            (fetched.with_pc(address), Ok(4))
        } else if opcode == 0xCA {
            // JP Z, a16
            let (fetched, address) = self.fetch_word();
            if registers.zero {
                (fetched.with_pc(address), Ok(4))
            } else {
                (fetched, Ok(3))
            }
        } else if opcode == 0xC9 {
            // RET
            (self.ret(), Ok(4))
        } else if opcode == 0xD9 {
            // RETI
            let returned = self.ret();
            (
                CpuView {
                    interrupt_controller: InterruptController {
                        interrupt_master_enable: true,
                        ..returned.interrupt_controller
                    },
                    ..returned
                },
                Ok(4),
            )
        } else if opcode == 0xCB {
            // the prefix of the extended table
            (CpuView { cb_prefix: true, ..self }, Ok(1))
        } else if opcode == 0xCD {
            // CALL a16
            let (fetched, address) = self.fetch_word();
            (fetched.call(address), Ok(6))
        } else if opcode == 0xE0 {
            // LDH (a8), A
            let (fetched, offset) = self.fetch_byte();
            (fetched.write_byte((0xFF00 + offset) as u16, registers.a), Ok(3))
        } else if opcode == 0xF0 {
            // LDH A, (a8)
            let (fetched, offset) = self.fetch_byte();
            (fetched.with_a(fetched.read_byte((0xFF00 + offset) as u16)), Ok(3))
        } else if opcode == 0xE2 {
            // LD (C), A
            (self.write_byte((0xFF00 + registers.c) as u16, registers.a), Ok(2))
        } else if opcode == 0xE6 {
            // AND d8
            let (fetched, value) = self.fetch_byte();
            (fetched.with_registers(fetched.registers.after_and(value)), Ok(2))
        } else if opcode == 0xFE {
            // CP d8
            let (fetched, value) = self.fetch_byte();
            (fetched.with_registers(fetched.registers.after_cp(value)), Ok(2))
        } else if opcode == 0xE9 {
            // JP (HL)
            (self.with_pc(registers.spec_hl()), Ok(1))
        } else if opcode == 0xEA {
            // LD (a16), A
            let (fetched, address) = self.fetch_word();
            (fetched.write_byte(address, registers.a), Ok(4))
        } else if opcode == 0xFA {
            // LD A, (a16)
            let (fetched, address) = self.fetch_word();
            (fetched.with_a(fetched.read_byte(address)), Ok(4))
        } else if opcode == 0xEF {
            // RST 28H
            (self.call(0x28), Ok(4))
        } else if opcode == 0xF3 || opcode == 0xFB {
            // DI; EI
            (
                CpuView {
                    interrupt_controller: InterruptController {
                        interrupt_master_enable: opcode == 0xFB,
                        ..self.interrupt_controller
                    },
                    ..self
                },
                Ok(1),
            )
        } else {
            self.unimplemented(opcode)
        }
    }

    /// What `opcode` does to the machine whose PC already points behind
    /// it, and the machine cycles it costs. An opcode that the engine
    /// does not execute leaves the machine alone and is reported.
    #[verifier::opaque]
    pub open spec fn execute(self, opcode: u8) -> (CpuView, Result<u8, UnimplementedOpcode>) {
        if self.cb_prefix {
            (CpuView { cb_prefix: false, ..self }).execute_prefixed(opcode)
        } else if opcode < 0x40 {
            self.execute_block0(opcode)
        } else if opcode < 0x80 {
            if opcode == 0x76 {
                self.unimplemented(opcode)
            } else {
                (self.load(opcode).0, Ok(self.load(opcode).1))
            }
        } else if opcode < 0xC0 {
            if opcode < 0xB8 {
                (self.alu(opcode).0, Ok(self.alu(opcode).1))
            } else {
                self.unimplemented(opcode)
            }
        } else {
            self.execute_block3(opcode)
        }
    }

    /// One instruction: the opcode at PC is fetched, PC moves past it,
    /// and the opcode is executed.
    pub open spec fn step(self) -> (CpuView, Result<u8, UnimplementedOpcode>) {
        let (fetched, opcode) = self.fetch_byte();
        fetched.execute(opcode)
    }
}

impl CPU {
    /// Executes an opcode from 0x00 to 0x07.
    #[verifier::rlimit(60)]
    fn execute_00_07(&mut self, instruction: u8) -> (r: Result<u8, UnimplementedOpcode>)
        requires
            0x00 <= instruction <= 0x07,
        ensures
            (final(self)@, r) == old(self)@.execute_block0(instruction),
    {
        match instruction {
            // NOP
            0x00 => Ok(1),
            // LD BC, d16
            0x01 => {
                let value: u16 = self.fetch_word();
                self.registers.setbc(value);
                Ok(3)
            },
            // LD (BC), A
            0x02 => {
                self.write_byte(self.registers.bc(), self.registers.a);
                Ok(2)
            },
            // INC BC
            0x03 => {
                self.registers.setbc(self.registers.bc().wrapping_add(1));
                Ok(2)
            },
            // INC B
            0x04 => {
                self.registers.b = self.registers.alu_inc(self.registers.b);
                Ok(1)
            },
            // DEC B
            0x05 => {
                self.registers.b = self.registers.alu_dec(self.registers.b);
                Ok(1)
            },
            // LD B, d8
            0x06 => {
                self.registers.b = self.fetch_byte();
                Ok(2)
            },
            // RLCA
            0x07 => {
                self.registers.a = self.registers.alu_rlca(self.registers.a);
                Ok(1)
            },
            _ => Err(UnimplementedOpcode { opcode: instruction, prefixed: false }),
        }
    }

    /// Executes an opcode from 0x08 to 0x0F.
    #[verifier::rlimit(60)]
    fn execute_08_0f(&mut self, instruction: u8) -> (r: Result<u8, UnimplementedOpcode>)
        requires
            0x08 <= instruction <= 0x0F,
        ensures
            (final(self)@, r) == old(self)@.execute_block0(instruction),
    {
        match instruction {
            // LD (a16), SP
            0x08 => {
                let value: u16 = self.fetch_word();
                self.write_word(value, self.registers.sp);
                Ok(5)
            },
            // ADD HL, BC
            0x09 => {
                let value: u16 = self.registers.alu_add16(self.registers.hl(), self.registers.bc());
                self.registers.sethl(value);
                Ok(2)
            },
            // LD A, (BC)
            0x0A => {
                self.registers.a = self.read_byte(self.registers.bc());
                Ok(2)
            },
            // DEC BC
            0x0B => {
                self.registers.setbc(self.registers.bc().wrapping_sub(1));
                Ok(2)
            },
            // INC C
            0x0C => {
                self.registers.c = self.registers.alu_inc(self.registers.c);
                Ok(1)
            },
            // DEC C
            0x0D => {
                self.registers.c = self.registers.alu_dec(self.registers.c);
                Ok(1)
            },
            // LD C, d8
            0x0E => {
                self.registers.c = self.fetch_byte();
                Ok(2)
            },
            // RRCA
            0x0F => {
                self.registers.a = self.registers.alu_rrca(self.registers.a);
                Ok(1)
            },
            _ => Err(UnimplementedOpcode { opcode: instruction, prefixed: false }),
        }
    }

    /// Executes an opcode from 0x10 to 0x17.
    #[verifier::rlimit(60)]
    fn execute_10_17(&mut self, instruction: u8) -> (r: Result<u8, UnimplementedOpcode>)
        requires
            0x10 <= instruction <= 0x17,
        ensures
            (final(self)@, r) == old(self)@.execute_block0(instruction),
    {
        match instruction {
            // LD DE, d16
            0x11 => {
                let value: u16 = self.fetch_word();
                self.registers.setde(value);
                Ok(3)
            },
            // LD (DE), A
            0x12 => {
                self.write_byte(self.registers.de(), self.registers.a);
                Ok(2)
            },
            // INC DE
            0x13 => {
                self.registers.setde(self.registers.de().wrapping_add(1));
                Ok(2)
            },
            // INC D
            0x14 => {
                self.registers.d = self.registers.alu_inc(self.registers.d);
                Ok(1)
            },
            // DEC D
            0x15 => {
                self.registers.d = self.registers.alu_dec(self.registers.d);
                Ok(1)
            },
            // LD D, d8
            0x16 => {
                self.registers.d = self.fetch_byte();
                Ok(2)
            },
            // RLA
            0x17 => {
                self.registers.a = self.registers.alu_rla(self.registers.a);
                Ok(1)
            },
            _ => Err(UnimplementedOpcode { opcode: instruction, prefixed: false }),
        }
    }

    /// Executes an opcode from 0x18 to 0x1F.
    #[verifier::rlimit(60)]
    fn execute_18_1f(&mut self, instruction: u8) -> (r: Result<u8, UnimplementedOpcode>)
        requires
            0x18 <= instruction <= 0x1F,
        ensures
            (final(self)@, r) == old(self)@.execute_block0(instruction),
    {
        match instruction {
            // JR r8
            0x18 => {
                self.registers.pc = self.calculate_jr_address();
                Ok(3)
            },
            // ADD HL, DE
            0x19 => {
                let value: u16 = self.registers.alu_add16(self.registers.hl(), self.registers.de());
                self.registers.sethl(value);
                Ok(2)
            },
            // LD A, (DE)
            0x1A => {
                self.registers.a = self.read_byte(self.registers.de());
                Ok(2)
            },
            // DEC DE
            0x1B => {
                self.registers.setde(self.registers.de().wrapping_sub(1));
                Ok(2)
            },
            // INC E
            0x1C => {
                self.registers.e = self.registers.alu_inc(self.registers.e);
                Ok(1)
            },
            // DEC E
            0x1D => {
                self.registers.e = self.registers.alu_dec(self.registers.e);
                Ok(1)
            },
            // LD E, d8
            0x1E => {
                self.registers.e = self.fetch_byte();
                Ok(2)
            },
            // RRA
            0x1F => {
                self.registers.a = self.registers.alu_rra(self.registers.a);
                Ok(1)
            },
            _ => Err(UnimplementedOpcode { opcode: instruction, prefixed: false }),
        }
    }

    /// Executes an opcode from 0x20 to 0x27.
    #[verifier::rlimit(60)]
    fn execute_20_27(&mut self, instruction: u8) -> (r: Result<u8, UnimplementedOpcode>)
        requires
            0x20 <= instruction <= 0x27,
        ensures
            (final(self)@, r) == old(self)@.execute_block0(instruction),
    {
        match instruction {
            // JR NZ, r8
            0x20 => Ok(self.jr_if_nflag(CpuFlags::Z)),
            // LD HL, d16
            0x21 => {
                let value: u16 = self.fetch_word();
                self.registers.sethl(value);
                Ok(3)
            },
            // LD (HL+), A
            0x22 => {
                let hl: u16 = self.registers.hl_and_inc();
                self.write_byte(hl, self.registers.a);
                Ok(2)
            },
            // INC HL
            0x23 => {
                self.registers.increment_hl();
                Ok(2)
            },
            // INC H
            0x24 => {
                self.registers.h = self.registers.alu_inc(self.registers.h);
                Ok(1)
            },
            // DEC H
            0x25 => {
                self.registers.h = self.registers.alu_dec(self.registers.h);
                Ok(1)
            },
            // LD H, d8
            0x26 => {
                self.registers.h = self.fetch_byte();
                Ok(2)
            },
            _ => Err(UnimplementedOpcode { opcode: instruction, prefixed: false }),
        }
    }

    /// Executes an opcode from 0x28 to 0x2F.
    #[verifier::rlimit(60)]
    fn execute_28_2f(&mut self, instruction: u8) -> (r: Result<u8, UnimplementedOpcode>)
        requires
            0x28 <= instruction <= 0x2F,
        ensures
            (final(self)@, r) == old(self)@.execute_block0(instruction),
    {
        match instruction {
            // JR Z, r8
            0x28 => Ok(self.jr_if_flag(CpuFlags::Z)),
            // ADD HL, HL
            0x29 => {
                let value: u16 = self.registers.alu_add16(self.registers.hl(), self.registers.hl());
                self.registers.sethl(value);
                Ok(2)
            },
            // LD A, (HL+)
            0x2A => {
                let hl: u16 = self.registers.hl_and_inc();
                self.registers.a = self.read_byte(hl);
                Ok(2)
            },
            // DEC HL
            0x2B => {
                self.registers.decrement_hl();
                Ok(2)
            },
            // INC L
            0x2C => {
                self.registers.l = self.registers.alu_inc(self.registers.l);
                Ok(1)
            },
            // DEC L
            0x2D => {
                self.registers.l = self.registers.alu_dec(self.registers.l);
                Ok(1)
            },
            // LD L, d8
            0x2E => {
                self.registers.l = self.fetch_byte();
                Ok(2)
            },
            // CPL
            0x2F => {
                self.registers.alu_cpl();
                Ok(1)
            },
            _ => Err(UnimplementedOpcode { opcode: instruction, prefixed: false }),
        }
    }

    /// Executes an opcode from 0x30 to 0x37.
    #[verifier::rlimit(60)]
    fn execute_30_37(&mut self, instruction: u8) -> (r: Result<u8, UnimplementedOpcode>)
        requires
            0x30 <= instruction <= 0x37,
        ensures
            (final(self)@, r) == old(self)@.execute_block0(instruction),
    {
        match instruction {
            // JR NC, r8
            0x30 => Ok(self.jr_if_nflag(CpuFlags::C)),
            // LD SP, d16
            0x31 => {
                let value: u16 = self.fetch_word();
                self.registers.sp = value;
                Ok(3)
            },
            // LD (HL-), A
            0x32 => {
                let hl: u16 = self.registers.hl_and_dec();
                self.write_byte(hl, self.registers.a);
                Ok(2)
            },
            // INC SP
            0x33 => {
                self.registers.sp = self.registers.sp.wrapping_add(1);
                Ok(2)
            },
            // INC (HL)
            0x34 => {
                let mut value: u8 = self.read_byte(self.registers.hl());
                value = self.registers.alu_inc(value);
                self.write_byte(self.registers.hl(), value);
                Ok(3)
            },
            // DEC (HL)
            0x35 => {
                let mut value: u8 = self.read_byte(self.registers.hl());
                value = self.registers.alu_dec(value);
                self.write_byte(self.registers.hl(), value);
                Ok(3)
            },
            // LD (HL), d8
            0x36 => {
                let immediate: u8 = self.fetch_byte();
                self.write_byte(self.registers.hl(), immediate);
                Ok(3)
            },
            _ => Err(UnimplementedOpcode { opcode: instruction, prefixed: false }),
        }
    }

    /// Executes an opcode from 0x38 to 0x3F.
    #[verifier::rlimit(60)]
    fn execute_38_3f(&mut self, instruction: u8) -> (r: Result<u8, UnimplementedOpcode>)
        requires
            0x38 <= instruction <= 0x3F,
        ensures
            (final(self)@, r) == old(self)@.execute_block0(instruction),
    {
        match instruction {
            // JR C, r8
            0x38 => Ok(self.jr_if_flag(CpuFlags::C)),
            // ADD HL, SP
            0x39 => {
                let value: u16 = self.registers.alu_add16(self.registers.hl(), self.registers.sp);
                self.registers.sethl(value);
                Ok(2)
            },
            // LD A, (HL-)
            0x3A => {
                let hl: u16 = self.registers.hl_and_dec();
                self.registers.a = self.read_byte(hl);
                Ok(2)
            },
            // DEC SP
            0x3B => {
                self.registers.sp = self.registers.sp.wrapping_sub(1);
                Ok(2)
            },
            // INC A
            0x3C => {
                self.registers.a = self.registers.alu_inc(self.registers.a);
                Ok(1)
            },
            // DEC A
            0x3D => {
                self.registers.a = self.registers.alu_dec(self.registers.a);
                Ok(1)
            },
            // LD A, d8
            0x3E => {
                self.registers.a = self.fetch_byte();
                Ok(2)
            },
            // CCF
            0x3F => {
                self.registers.alu_ccf();
                Ok(1)
            },
            _ => Err(UnimplementedOpcode { opcode: instruction, prefixed: false }),
        }
    }

    /// Executes an opcode from 0xC0 to 0xCF.
    fn execute_c0_cf(&mut self, instruction: u8) -> (r: Result<u8, UnimplementedOpcode>)
        requires
            0xC0 <= instruction <= 0xCF,
        ensures
            (final(self)@, r) == old(self)@.execute_block3(instruction),
    {
        match instruction {
            // RET NZ
            0xC0 => {
                if !self.registers.get_flag(CpuFlags::Z) {
                    self.ret();
                    Ok(5)
                } else {
                    Ok(2)
                }
            },
            // POP BC
            0xC1 => {
                let value: u16 = self.pop_from_stack();
                self.registers.setbc(value);
                Ok(3)
            },
            // JP a16
            0xC3 => {
                let address: u16 = self.fetch_word();
                self.jump_to(address);
                Ok(4)
            },
            // PUSH BC
            0xC5 => {
                let value: u16 = self.registers.bc();
                self.push_to_stack(value);
                Ok(4)
            },
            // RET Z
            0xC8 => Ok(self.ret_if_flag(CpuFlags::Z)),
            // RET
            0xC9 => {
                self.ret();
                Ok(4)
            },
            // JP Z, a16
            0xCA => {
                let address: u16 = self.fetch_word();
                Ok(self.jp_if_flag(address, CpuFlags::Z))
            },
            // the prefix of the extended table
            0xCB => {
                self.cb_prefix = true;
                Ok(1)
            },
            // CALL a16
            0xCD => {
                let value: u16 = self.fetch_word();
                self.call(value);
                Ok(6)
            },
            _ => Err(UnimplementedOpcode { opcode: instruction, prefixed: false }),
        }
    }

    /// Executes an opcode from 0xD0 to 0xDF.
    fn execute_d0_df(&mut self, instruction: u8) -> (r: Result<u8, UnimplementedOpcode>)
        requires
            0xD0 <= instruction <= 0xDF,
        ensures
            (final(self)@, r) == old(self)@.execute_block3(instruction),
    {
        match instruction {
            // POP DE
            0xD1 => {
                let value: u16 = self.pop_from_stack();
                self.registers.setde(value);
                Ok(3)
            },
            // PUSH DE
            0xD5 => {
                let value: u16 = self.registers.de();
                self.push_to_stack(value);
                Ok(4)
            },
            // RETI
            0xD9 => {
                self.ret();
                self.interrupt_controller.enable_master_interrupt();
                Ok(4)
            },
            _ => Err(UnimplementedOpcode { opcode: instruction, prefixed: false }),
        }
    }

    /// Executes an opcode from 0xE0 to 0xEF.
    fn execute_e0_ef(&mut self, instruction: u8) -> (r: Result<u8, UnimplementedOpcode>)
        requires
            0xE0 <= instruction <= 0xEF,
        ensures
            (final(self)@, r) == old(self)@.execute_block3(instruction),
    {
        match instruction {
            // LDH (a8), A
            0xE0 => {
                let address: u8 = self.fetch_byte();
                self.write_byte(0xFF00 + address as u16, self.registers.a);
                Ok(3)
            },
            // POP HL
            0xE1 => {
                let value: u16 = self.pop_from_stack();
                self.registers.sethl(value);
                Ok(3)
            },
            // LD (C), A
            0xE2 => {
                let address: u8 = self.registers.c;
                self.write_byte(0xFF00 + address as u16, self.registers.a);
                Ok(2)
            },
            // PUSH HL
            0xE5 => {
                let value: u16 = self.registers.hl();
                self.push_to_stack(value);
                Ok(4)
            },
            // AND d8
            0xE6 => {
                let value: u8 = self.fetch_byte();
                self.registers.alu_and(value);
                Ok(2)
            },
            // JP (HL)
            0xE9 => {
                let address: u16 = self.registers.hl();
                self.jump_to(address);
                Ok(1)
            },
            // LD (a16), A
            0xEA => {
                let address: u16 = self.fetch_word();
                self.write_byte(address, self.registers.a);
                Ok(4)
            },
            // RST 28H
            0xEF => {
                self.rst(0x28);
                Ok(4)
            },
            _ => Err(UnimplementedOpcode { opcode: instruction, prefixed: false }),
        }
    }

    /// Executes an opcode from 0xF0 to 0xFF.
    fn execute_f0_ff(&mut self, instruction: u8) -> (r: Result<u8, UnimplementedOpcode>)
        requires
            0xF0 <= instruction <= 0xFF,
        ensures
            (final(self)@, r) == old(self)@.execute_block3(instruction),
    {
        match instruction {
            // LDH A, (a8)
            0xF0 => {
                let address: u8 = self.fetch_byte();
                self.registers.a = self.read_byte(0xFF00 + address as u16);
                Ok(3)
            },
            // POP AF
            0xF1 => {
                let value: u16 = self.pop_from_stack();
                self.registers.setaf(value);
                Ok(3)
            },
            // DI
            0xF3 => {
                self.interrupt_controller.disable_master_interrupt();
                Ok(1)
            },
            // PUSH AF
            0xF5 => {
                let value: u16 = self.registers.af();
                self.push_to_stack(value);
                Ok(4)
            },
            // LD A, (a16)
            0xFA => {
                let address: u16 = self.fetch_word();
                let value: u8 = self.read_byte(address);
                self.registers.a = value;
                Ok(4)
            },
            // EI
            0xFB => {
                self.interrupt_controller.enable_master_interrupt();
                Ok(1)
            },
            // CP d8
            0xFE => {
                let value: u8 = self.fetch_byte();
                self.registers.alu_cp(value);
                Ok(2)
            },
            _ => Err(UnimplementedOpcode { opcode: instruction, prefixed: false }),
        }
    }

    /// Executes an opcode from 0x00 to 0x3F.
    pub fn execute_block0(&mut self, instruction: u8) -> (r: Result<u8, UnimplementedOpcode>)
        requires
            instruction < 0x40,
        ensures
            (final(self)@, r) == old(self)@.execute_block0(instruction),
    {
        if instruction <= 0x07 {
            self.execute_00_07(instruction)
        } else if instruction <= 0x0F {
            self.execute_08_0f(instruction)
        } else if instruction <= 0x17 {
            self.execute_10_17(instruction)
        } else if instruction <= 0x1F {
            self.execute_18_1f(instruction)
        } else if instruction <= 0x27 {
            self.execute_20_27(instruction)
        } else if instruction <= 0x2F {
            self.execute_28_2f(instruction)
        } else if instruction <= 0x37 {
            self.execute_30_37(instruction)
        } else {
            self.execute_38_3f(instruction)
        }
    }

    /// Executes an opcode from 0xC0 to 0xFF.
    pub fn execute_block3(&mut self, instruction: u8) -> (r: Result<u8, UnimplementedOpcode>)
        requires
            instruction >= 0xC0,
        ensures
            (final(self)@, r) == old(self)@.execute_block3(instruction),
    {
        if instruction <= 0xCF {
            self.execute_c0_cf(instruction)
        } else if instruction <= 0xDF {
            self.execute_d0_df(instruction)
        } else if instruction <= 0xEF {
            self.execute_e0_ef(instruction)
        } else {
            self.execute_f0_ff(instruction)
        }
    }

    /// Executes `instruction`, whose operands PC points at, and returns
    /// the machine cycles spent.
    pub fn execute_instruction(&mut self, instruction: u8) -> (r: Result<u8, UnimplementedOpcode>)
        ensures
            (final(self)@, r) == old(self)@.execute(instruction),
    {
        reveal(CpuView::execute);
        if self.cb_prefix {
            self.cb_prefix = false;
            if instruction <= 0x07 {
                Ok(self.rlc_opcode(instruction))
            } else if instruction <= 0x0F {
                Ok(self.rrc_opcode(instruction))
            } else if 0x30 <= instruction && instruction <= 0x37 {
                Ok(self.swap_opcode(instruction))
            } else if 0x80 <= instruction && instruction <= 0xBF {
                let bit: u8 = parse_destination_register(instruction, 0x08);
                Ok(self.res_opcode(instruction, bit))
            } else {
                Err(UnimplementedOpcode { opcode: instruction, prefixed: true })
            }
        } else if instruction <= 0x3F {
            self.execute_block0(instruction)
        } else if instruction <= 0x7F {
            if instruction == 0x76 {
                // HALT
                Err(UnimplementedOpcode { opcode: instruction, prefixed: false })
            } else {
                Ok(self.register_movement(instruction))
            }
        } else if instruction <= 0x87 {
            Ok(self.alu_add8(instruction))
        } else if instruction <= 0x8F {
            Ok(self.alu_adc8(instruction))
        } else if instruction <= 0x97 {
            Ok(self.sub8_opcode(instruction))
        } else if instruction <= 0x9F {
            Ok(self.alu_sbc8(instruction))
        } else if instruction <= 0xA7 {
            Ok(self.and_opcode(instruction))
        } else if instruction <= 0xAF {
            Ok(self.xor_opcode(instruction))
        } else if instruction <= 0xB7 {
            Ok(self.or_opcode(instruction))
        } else if instruction <= 0xBF {
            // CP r
            Err(UnimplementedOpcode { opcode: instruction, prefixed: false })
        } else {
            self.execute_block3(instruction)
        }
    }

    /// Runs one instruction: fetches the opcode at PC, moves PC past
    /// it, executes it and returns the machine cycles it cost.
    pub fn do_cycle(&mut self) -> (r: Result<u8, UnimplementedOpcode>)
        ensures
            (final(self)@, r) == old(self)@.step(),
    {
        let instruction: u8 = self.read_byte(self.registers.pc);
        self.registers.pc = self.registers.pc.wrapping_add(1);
        self.execute_instruction(instruction)
    }
}

/// Where a byte that was written is read back: video RAM, OAM, working
/// RAM and high RAM.
pub open spec fn is_storage(address: u16) -> bool {
    in_vram(address) || in_oam(address) || crate::mmu::in_ram(address) || crate::mmu::in_high_ram(address)
}

/// What the bus reads does not depend on the registers.
pub proof fn lemma_read_ignores_registers(m: CpuView, registers: Registers, address: u16)
    ensures
        m.with_registers(registers).read_byte(address) == m.read_byte(address),
{
    reveal(CpuView::read_byte);
}

/// A byte written to storage is read back, and a write to storage
/// changes what no other address of storage reads.
pub proof fn lemma_bus_byte_round_trip(m: CpuView, address: u16, value: u8, other: u16)
    requires
        m.wf(),
        is_storage(address),
    ensures
        m.write_byte(address, value).wf(),
        m.write_byte(address, value).read_byte(address) == value,
        is_storage(other) && other != address ==> m.write_byte(address, value).read_byte(other) == m.read_byte(other),
        m.write_byte(address, value).registers == m.registers,
{
    reveal(CpuView::read_byte);
    reveal(CpuView::write_byte);
}

/// A word written to the bus is read back from it wherever both of its
/// bytes fall into storage.
pub proof fn lemma_bus_word_round_trip(m: CpuView, address: u16, value: u16)
    requires
        m.wf(),
        is_storage(address),
        is_storage(next_address(address)),
    ensures
        m.write_word(address, value).read_word(address) == value,
{
    let low = (value % 256) as u8;
    let high = (value / 256) as u8;
    let next = next_address(address);
    lemma_bus_byte_round_trip(m, address, low, next);
    lemma_bus_byte_round_trip(m.write_byte(address, low), next, high, address);
}

/// A word that was pushed is popped again, and SP is back where it was,
/// wherever the two bytes below SP fall into storage.
pub proof fn lemma_push_pop(m: CpuView, value: u16)
    requires
        m.wf(),
        is_storage(sub16(m.registers.sp, 2)),
        is_storage(sub16(m.registers.sp, 1)),
    ensures
        m.push(value).pop().1 == value,
        m.push(value).pop().0.registers == m.registers,
{
    let sp = sub16(m.registers.sp, 2);
    assert(next_address(sp) == sub16(m.registers.sp, 1));
    lemma_bus_word_round_trip(m, sp, value);
    lemma_bus_byte_round_trip(m, sp, (value % 256) as u8, sp);
    lemma_bus_byte_round_trip(m.write_byte(sp, (value % 256) as u8), next_address(sp), (value / 256) as u8, sp);
    reveal(CpuView::read_byte);
}

proof fn lemma_block0_reported(m: CpuView, opcode: u8)
    requires
        opcode < 0x40,
    ensures
        m.execute_block0(opcode).1 is Err <==> !is_implemented(opcode),
        m.execute_block0(opcode).1 is Err ==> m.execute_block0(opcode) == m.unimplemented(opcode),
        m.execute_block0(opcode).1 matches Ok(cycles) ==> 1 <= cycles <= 6,
{
    let y = field_y(opcode);
    let z = field_z(opcode);
    assert(opcode == 8 * y + z);
    assert(y < 8 && z < 8);
}

proof fn lemma_block3_reported(m: CpuView, opcode: u8)
    requires
        opcode >= 0xC0,
    ensures
        m.execute_block3(opcode).1 is Err <==> !is_implemented(opcode),
        m.execute_block3(opcode).1 is Err ==> m.execute_block3(opcode) == m.unimplemented(opcode),
        m.execute_block3(opcode).1 matches Ok(cycles) ==> 1 <= cycles <= 6,
{
}

proof fn lemma_prefixed_reported(m: CpuView, opcode: u8)
    ensures
        m.execute_prefixed(opcode).1 is Err <==> !is_implemented_prefixed(opcode),
        m.execute_prefixed(opcode).1 is Err ==> m.execute_prefixed(opcode) == (
            m,
            Err::<u8, UnimplementedOpcode>(UnimplementedOpcode { opcode, prefixed: true }),
        ),
        m.execute_prefixed(opcode).1 matches Ok(cycles) ==> 1 <= cycles <= 6,
{
}

/// An opcode is reported exactly when the engine does not execute it;
/// the report names the opcode and its table, and the machine is left
/// with PC behind the opcode and nothing else changed. An opcode that
/// is executed costs from one to six machine cycles.
pub proof fn lemma_reported_iff_unimplemented(m: CpuView, opcode: u8)
    ensures
        m.execute(opcode).1 is Err <==> !(if m.cb_prefix { is_implemented_prefixed(opcode) } else { is_implemented(opcode) }),
        m.execute(opcode).1 is Err ==> m.execute(opcode).1 == Err::<u8, UnimplementedOpcode>(
            UnimplementedOpcode { opcode, prefixed: m.cb_prefix },
        ) && m.execute(opcode).0 == (CpuView { cb_prefix: false, ..m }),
        m.execute(opcode).1 matches Ok(cycles) ==> 1 <= cycles <= 6,
{
    reveal(CpuView::execute);
    if m.cb_prefix {
        lemma_prefixed_reported(CpuView { cb_prefix: false, ..m }, opcode);
    } else if opcode < 0x40 {
        lemma_block0_reported(m, opcode);
    } else if opcode >= 0xC0 {
        lemma_block3_reported(m, opcode);
    }
}

/// Outside the extended table, the opcodes below 0x40 are those of the
/// first block.
proof fn lemma_execute_first_block(m: CpuView, opcode: u8)
    requires
        !m.cb_prefix,
        opcode < 0x40,
    ensures
        m.execute(opcode) == m.execute_block0(opcode),
{
    reveal(CpuView::execute);
}

/// The opcode 0x00 moves PC past itself, costs one machine cycle and
/// changes nothing else.
pub proof fn lemma_nop(m: CpuView)
    requires
        !m.cb_prefix,
        m.read_byte(m.registers.pc) == 0x00,
    ensures
        m.step() == (m.with_pc(inc16(m.registers.pc)), Ok::<u8, UnimplementedOpcode>(1)),
{
    lemma_execute_first_block(m.fetch_byte().0, 0x00);
}

/// The relative jump 0x18 adds its signed offset to the PC that follows
/// the offset byte, costs three machine cycles and changes nothing
/// else. With the offset -2 it jumps to its own opcode.
pub proof fn lemma_jr(m: CpuView)
    requires
        !m.cb_prefix,
        m.read_byte(m.registers.pc) == 0x18,
    ensures
        m.step() == (
            m.with_pc(jr_target(inc16(inc16(m.registers.pc)), m.read_byte(inc16(m.registers.pc)))),
            Ok::<u8, UnimplementedOpcode>(3),
        ),
        m.read_byte(inc16(m.registers.pc)) == 0xFE ==> m.step().0.registers.pc == m.registers.pc,
{
    let fetched = m.fetch_byte().0;
    lemma_execute_first_block(fetched, 0x18);
    assert(field_y(0x18) == 3 && field_z(0x18) == 0);
    lemma_read_ignores_registers(m, fetched.registers, fetched.registers.pc);
    let jumped = fetched.jump_relative(true);
    assert(fetched.execute_block0(0x18) == (jumped.0, Ok::<u8, UnimplementedOpcode>(jumped.1)));
}

} // verus!
