use vstd::prelude::*;

verus! {

/// The kinds of events a solution can register for.
#[derive(Debug, Clone, Copy, PartialEq, Eq)]
pub struct PeerEventFlags {
    pub bits: u8,
}

impl PeerEventFlags {
    pub fn hello() -> (r: PeerEventFlags)
        ensures
            r.bits == 0b0000_0001,
    {
        PeerEventFlags { bits: 0b0000_0001 }
    }

    pub fn connected() -> (r: PeerEventFlags)
        ensures
            r.bits == 0b0000_0010,
    {
        PeerEventFlags { bits: 0b0000_0010 }
    }

    pub fn bits(&self) -> (r: u8)
        ensures
            r == self.bits,
    {
        self.bits
    }
}

} // verus!
