//! The two interrupt registers as plain bytes.

use vstd::prelude::*;

verus! {

#[derive(Clone, Copy, Debug, PartialEq, Eq, Structural)]
pub struct Interrupts {
    pub interrupt_master_enable: bool,
    pub interrupt_enable: u8,
    pub interrupt_flag: u8,
}

impl Interrupts {
    pub fn new() -> (r: Interrupts)
        ensures
            r == (Interrupts { interrupt_master_enable: false, interrupt_enable: 0, interrupt_flag: 0 }),
    {
        Interrupts { interrupt_master_enable: false, interrupt_enable: 0, interrupt_flag: 0 }
    }

    pub fn set_interrupt_flag(&mut self, value: u8)
        ensures
            *final(self) == (Interrupts { interrupt_flag: value, ..*old(self) }),
    {
        self.interrupt_flag = value;
    }

    pub fn get_interrupt_flag(&self) -> (r: u8)
        ensures
            r == self.interrupt_flag,
    {
        self.interrupt_flag
    }

    pub fn set_interrupt_enable(&mut self, value: u8)
        ensures
            *final(self) == (Interrupts { interrupt_enable: value, ..*old(self) }),
    {
        self.interrupt_enable = value;
    }

    pub fn get_interrupt_enable(&self) -> (r: u8)
        ensures
            r == self.interrupt_enable,
    {
        self.interrupt_enable
    }
}

} // verus!
