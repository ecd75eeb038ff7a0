//! The serial link: two registers that hold what was written to them.

use vstd::prelude::*;

verus! {

#[derive(Clone, Copy, Debug, PartialEq, Eq, Structural)]
pub struct LinkCable {
    pub sb: u8,
    pub sc: u8,
}

impl LinkCable {
    pub fn new() -> (r: LinkCable)
        ensures
            r == (LinkCable { sb: 0, sc: 0 }),
    {
        LinkCable { sb: 0, sc: 0 }
    }

    pub fn sb(&self) -> (r: u8)
        ensures
            r == self.sb,
    {
        self.sb
    }

    pub fn set_sb(&mut self, value: u8)
        ensures
            *final(self) == (LinkCable { sb: value, ..*old(self) }),
    {
        self.sb = value;
    }

    pub fn sc(&self) -> (r: u8)
        ensures
            r == self.sc,
    {
        self.sc
    }

    pub fn set_sc(&mut self, value: u8)
        ensures
            *final(self) == (LinkCable { sc: value, ..*old(self) }),
    {
        self.sc = value;
    }
}

} // verus!
