//! The interrupt controller: an enable mask, a request mask and the
//! master-enable latch.

use vstd::prelude::*;

verus! {

/// The five interrupt sources, in priority order.
#[derive(Clone, Copy, Debug, PartialEq, Eq, Structural)]
pub enum InterruptFlags {
    VBlank,
    LCDStat,
    Timer,
    Serial,
    Joypad,
}

impl InterruptFlags {
    /// The bit of the source in both masks.
    pub open spec fn spec_mask(self) -> u8 {
        match self {
            InterruptFlags::VBlank => 0b0000_0001,
            InterruptFlags::LCDStat => 0b0000_0010,
            InterruptFlags::Timer => 0b0000_0100,
            InterruptFlags::Serial => 0b0000_1000,
            InterruptFlags::Joypad => 0b0001_0000,
        }
    }

    #[verifier::when_used_as_spec(spec_mask)]
    pub fn mask(self) -> (r: u8)
        ensures
            r == self.spec_mask(),
    {
        match self {
            InterruptFlags::VBlank => 0b0000_0001,
            InterruptFlags::LCDStat => 0b0000_0010,
            InterruptFlags::Timer => 0b0000_0100,
            InterruptFlags::Serial => 0b0000_1000,
            InterruptFlags::Joypad => 0b0001_0000,
        }
    }

    /// The address that dispatch jumps to for the source.
    pub open spec fn spec_vector(self) -> u16 {
        match self {
            InterruptFlags::VBlank => 0x0040,
            InterruptFlags::LCDStat => 0x0048,
            InterruptFlags::Timer => 0x0050,
            InterruptFlags::Serial => 0x0058,
            InterruptFlags::Joypad => 0x0060,
        }
    }

    #[verifier::when_used_as_spec(spec_vector)]
    pub fn vector(self) -> (r: u16)
        ensures
            r == self.spec_vector(),
    {
        match self {
            InterruptFlags::VBlank => 0x0040,
            InterruptFlags::LCDStat => 0x0048,
            InterruptFlags::Timer => 0x0050,
            InterruptFlags::Serial => 0x0058,
            InterruptFlags::Joypad => 0x0060,
        }
    }
}

#[derive(Clone, Copy, Debug, PartialEq, Eq, Structural)]
pub struct InterruptController {
    pub interrupt_master_enable: bool,
    pub ie: u8,
    pub iflag: u8,
}

/// Whether every bit of `mask` is set in `value`.
pub open spec fn has_bits(value: u8, mask: u8) -> bool {
    value & mask == mask
}

impl InterruptController {
    /// Whether `flag` is requested and enabled.
    pub open spec fn pending(&self, flag: InterruptFlags) -> bool {
        has_bits(self.iflag, flag.spec_mask()) && has_bits(self.ie, flag.spec_mask())
    }

    /// The pending source of highest priority, if any is pending.
    pub open spec fn first_pending(&self) -> Option<InterruptFlags> {
        if self.pending(InterruptFlags::VBlank) {
            Some(InterruptFlags::VBlank)
        } else if self.pending(InterruptFlags::LCDStat) {
            Some(InterruptFlags::LCDStat)
        } else if self.pending(InterruptFlags::Timer) {
            Some(InterruptFlags::Timer)
        } else if self.pending(InterruptFlags::Serial) {
            Some(InterruptFlags::Serial)
        } else if self.pending(InterruptFlags::Joypad) {
            Some(InterruptFlags::Joypad)
        } else {
            None
        }
    }

    /// The controller with the request bit of `flag` set.
    pub open spec fn with_request(&self, flag: InterruptFlags) -> InterruptController {
        InterruptController { iflag: self.iflag | flag.spec_mask(), ..*self }
    }

    /// The controller with the request bit of `flag` cleared.
    pub open spec fn without_request(&self, flag: InterruptFlags) -> InterruptController {
        InterruptController { iflag: self.iflag & !flag.spec_mask(), ..*self }
    }

    pub fn new() -> (r: InterruptController)
        ensures
            r == (InterruptController { interrupt_master_enable: false, ie: 0, iflag: 0 }),
    {
        InterruptController { interrupt_master_enable: false, ie: 0, iflag: 0 }
    }

    pub fn set_iflag(&mut self, value: u8)
        ensures
            *final(self) == (InterruptController { iflag: value, ..*old(self) }),
    {
        self.iflag = value;
    }

    pub fn iflag(&self) -> (r: u8)
        ensures
            r == self.iflag,
    {
        self.iflag
    }

    pub fn set_ie(&mut self, value: u8)
        ensures
            *final(self) == (InterruptController { ie: value, ..*old(self) }),
    {
        self.ie = value;
    }

    pub fn ie(&self) -> (r: u8)
        ensures
            r == self.ie,
    {
        self.ie
    }

    /// Clears the master-enable latch, at once.
    pub fn disable_master_interrupt(&mut self)
        ensures
            *final(self) == (InterruptController { interrupt_master_enable: false, ..*old(self) }),
    {
        self.interrupt_master_enable = false;
    }

    /// Sets the master-enable latch, at once: the next dispatch sees it.
    pub fn enable_master_interrupt(&mut self)
        ensures
            *final(self) == (InterruptController { interrupt_master_enable: true, ..*old(self) }),
    {
        self.interrupt_master_enable = true;
    }

    pub fn ime(&self) -> (r: bool)
        ensures
            r == self.interrupt_master_enable,
    {
        self.interrupt_master_enable
    }

    pub fn set_interrupt_flag(&mut self, flag: InterruptFlags)
        ensures
            *final(self) == old(self).with_request(flag),
    {
        let mask: u8 = flag.mask();
        self.iflag = self.iflag | mask;
    }

    pub fn clear_interrupt_flag(&mut self, flag: InterruptFlags)
        ensures
            *final(self) == old(self).without_request(flag),
    {
        let mask: u8 = flag.mask();
        self.iflag = self.iflag & !mask;
    }

    pub fn get_first_interrupt(&self) -> (r: Option<InterruptFlags>)
        ensures
            r == self.first_pending(),
    {
        if self.iflag & 0b0000_0001 == 0b0000_0001 && self.ie & 0b0000_0001 == 0b0000_0001 {
            Some(InterruptFlags::VBlank)
        } else if self.iflag & 0b0000_0010 == 0b0000_0010 && self.ie & 0b0000_0010 == 0b0000_0010 {
            Some(InterruptFlags::LCDStat)
        } else if self.iflag & 0b0000_0100 == 0b0000_0100 && self.ie & 0b0000_0100 == 0b0000_0100 {
            Some(InterruptFlags::Timer)
        } else if self.iflag & 0b0000_1000 == 0b0000_1000 && self.ie & 0b0000_1000 == 0b0000_1000 {
            Some(InterruptFlags::Serial)
        } else if self.iflag & 0b0001_0000 == 0b0001_0000 && self.ie & 0b0001_0000 == 0b0001_0000 {
            Some(InterruptFlags::Joypad)
        } else {
            None
        }
    }
}

/// Setting or clearing one of two different single-bit masks leaves the
/// other bit as it was; setting sets and clearing clears.
proof fn lemma_single_bits(v: u8, m: u8, n: u8)
    by (bit_vector)
    requires
        m == 1 || m == 2 || m == 4 || m == 8 || m == 16,
        n == 1 || n == 2 || n == 4 || n == 8 || n == 16,
    ensures
        (v | m) & m == m,
        (v & !m) & m != m,
        m != n ==> ((v | m) & n == n <==> v & n == n),
        m != n ==> ((v & !m) & n == n <==> v & n == n),
{
}

/// A source is pending exactly when it is requested and enabled; a
/// request makes an enabled source pending, clearing it ends that, and
/// neither touches another source.
pub proof fn lemma_request_and_clear(c: InterruptController, flag: InterruptFlags, other: InterruptFlags)
    ensures
        c.with_request(flag).pending(flag) <==> has_bits(c.ie, flag.spec_mask()),
        !c.without_request(flag).pending(flag),
        other != flag ==> (c.with_request(flag).pending(other) <==> c.pending(other)),
        other != flag ==> (c.without_request(flag).pending(other) <==> c.pending(other)),
{
    lemma_single_bits(c.iflag, flag.spec_mask(), other.spec_mask());
}

/// What `first_pending` returns is pending, and nothing of higher
/// priority is; it returns nothing only when nothing is pending. After
/// the returned request is cleared, a source is returned only if it comes
/// later in the fixed order.
pub proof fn lemma_first_pending_priority(c: InterruptController, flag: InterruptFlags)
    ensures
        c.first_pending() matches Some(first) ==> c.pending(first),
        c.pending(flag) ==> (c.first_pending() matches Some(first) && first.spec_mask() <= flag.spec_mask()),
        c.first_pending() == Some(flag) ==> (c.without_request(flag).first_pending() matches Some(next) ==> next.spec_mask()
            > flag.spec_mask() && c.pending(next)),
{
    lemma_request_and_clear(c, flag, InterruptFlags::VBlank);
    lemma_request_and_clear(c, flag, InterruptFlags::LCDStat);
    lemma_request_and_clear(c, flag, InterruptFlags::Timer);
    lemma_request_and_clear(c, flag, InterruptFlags::Serial);
    lemma_request_and_clear(c, flag, InterruptFlags::Joypad);
}

} // verus!
