use vstd::prelude::*;

verus! {

/// Marks the kind of a peer event, and the state of a session in the state table.
#[derive(Debug, Clone, Copy, PartialEq, Eq, Structural)]
pub struct PeerEventFlags {
    pub bits: u8,
}

impl PeerEventFlags {
    pub fn hello() -> (r: PeerEventFlags)
        ensures
            r.spec_bits() == 0b0000_0001,
    {
        PeerEventFlags { bits: 0b0000_0001 }
    }

    pub fn connect() -> (r: PeerEventFlags)
        ensures
            r.spec_bits() == 0b0000_0010,
    {
        PeerEventFlags { bits: 0b0000_0010 }
    }

    pub fn established() -> (r: PeerEventFlags)
        ensures
            r.spec_bits() == 0b0000_0100,
    {
        PeerEventFlags { bits: 0b0000_0100 }
    }

    /// Hello and connect at once, which no single event can be.
    pub fn conflict() -> (r: PeerEventFlags)
        ensures
            r.spec_bits() == 0b0000_0011,
    {
        PeerEventFlags { bits: 0b0000_0011 }
    }

    /// The bits that some named flag sets.
    pub open spec fn all_bits() -> u8 {
        0b0000_0111
    }

    pub open spec fn spec_bits(self) -> u8 {
        self.bits
    }

    pub fn bits(&self) -> (r: u8)
        ensures
            r == self.spec_bits(),
    {
        self.bits
    }

    /// The flags with exactly these bits, when every bit is one that a named flag sets.
    pub fn from_bits(bits: u8) -> (r: Option<PeerEventFlags>)
        ensures
            r is Some <==> bits & !Self::all_bits() == 0,
            r matches Some(f) ==> f.spec_bits() == bits,
    {
        if bits & !0b0000_0111u8 == 0 {
            Some(PeerEventFlags { bits })
        } else {
            None
        }
    }

    /// Every bit of `other` is set here.
    pub fn contains(&self, other: PeerEventFlags) -> (r: bool)
        ensures
            r == (self.spec_bits() & other.spec_bits() == other.spec_bits()),
    {
        self.bits & other.bits == other.bits
    }
}

} // verus!
