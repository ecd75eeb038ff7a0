//! Core of an emulator for an 8-bit handheld console: register file,
//! memory bus, cartridge adapter, pixel engine, interrupt controller and
//! instruction engine, with their behaviour stated as contracts.

pub mod memory_map;
pub mod registers;
pub mod alu;
pub mod interrupt_controller;
pub mod joypad;
pub mod link_cable;
pub mod timer;
pub mod mbc;
pub mod mbc0;
pub mod mmu;
pub mod bits;
pub mod gpu;
pub mod cpu;
pub mod device;
pub mod opcodes;
pub mod cli;
pub mod interrupts;
