//! The timer registers and the cycle count that drives the divider.

use vstd::prelude::*;

verus! {

#[derive(Clone, Copy, Debug, PartialEq, Eq, Structural)]
pub struct Timer {
    pub div: u8,
    pub tima: u8,
    pub tma: u8,
    pub tac: u8,
    pub timer_interrupt_req: bool,
    pub cycles_passed: u16,
    /// Cycles counted since the count last reached 256.
    pub div_cycles: u16,
}

impl Timer {
    /// The timer after `cycles` more cycles: the count grows, and starts
    /// again from 0 once it has reached 256. The divider register itself
    /// is not advanced.
    pub open spec fn after_cycles(&self, cycles: u16) -> Timer {
        Timer { div_cycles: if self.div_cycles + cycles >= 256 { 0 } else { (self.div_cycles + cycles) as u16 }, ..*self }
    }

    pub fn new() -> (r: Timer)
        ensures
            r == (Timer { div: 0, tima: 0, tma: 0, tac: 0, timer_interrupt_req: false, cycles_passed: 0, div_cycles: 0 }),
    {
        Timer { div: 0, tima: 0, tma: 0, tac: 0, timer_interrupt_req: false, cycles_passed: 0, div_cycles: 0 }
    }

    pub fn update_timer(&mut self, cycles: u16)
        ensures
            *final(self) == old(self).after_cycles(cycles),
            final(self).div_cycles < 256,
    {
        let total: u32 = self.div_cycles as u32 + cycles as u32;
        if total >= 256 {
            self.div_cycles = 0;
        } else {
            self.div_cycles = total as u16;
        }
    }

    pub fn tma(&self) -> (r: u8)
        ensures
            r == self.tma,
    {
        self.tma
    }

    pub fn set_tma(&mut self, value: u8)
        ensures
            *final(self) == (Timer { tma: value, ..*old(self) }),
    {
        self.tma = value;
    }

    pub fn div(&self) -> (r: u8)
        ensures
            r == self.div,
    {
        self.div
    }

    /// A write to the divider resets it, whatever the value written.
    pub fn set_div(&mut self, value: u8)
        ensures
            *final(self) == (Timer { div: 0, ..*old(self) }),
    {
        let _ = value;
        self.div = 0;
    }
}

} // verus!
