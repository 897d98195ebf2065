use vstd::prelude::*;

verus! {

/// The bits that mark control messages and peer events.
#[derive(Debug, Clone, Copy, PartialEq, Eq)]
pub struct PeerCtrlCode {
    pub bits: u8,
}

/// Every bit that a named code sets.
pub open spec fn ctrl_code_all_bits() -> u8 {
    0b0001_1111
}

impl PeerCtrlCode {
    pub fn hello() -> (r: PeerCtrlCode)
        ensures
            r.bits == 0b0000_0001,
    {
        PeerCtrlCode { bits: 0b0000_0001 }
    }

    pub fn connect() -> (r: PeerCtrlCode)
        ensures
            r.bits == 0b0000_0010,
    {
        PeerCtrlCode { bits: 0b0000_0010 }
    }

    pub fn establish() -> (r: PeerCtrlCode)
        ensures
            r.bits == 0b0000_0100,
    {
        PeerCtrlCode { bits: 0b0000_0100 }
    }

    pub fn transferring() -> (r: PeerCtrlCode)
        ensures
            r.bits == 0b0000_1000,
    {
        PeerCtrlCode { bits: 0b0000_1000 }
    }

    pub fn unreachable() -> (r: PeerCtrlCode)
        ensures
            r.bits == 0b0001_0000,
    {
        PeerCtrlCode { bits: 0b0001_0000 }
    }

    pub fn bits(&self) -> (r: u8)
        ensures
            r == self.bits,
    {
        self.bits
    }

    /// The code with exactly these bits, when each is a named one.
    pub fn from_bits(bits: u8) -> (r: Option<PeerCtrlCode>)
        ensures
            r is Some <==> bits & !ctrl_code_all_bits() == 0,
            r matches Some(c) ==> c.bits == bits,
    {
        if bits & !0b0001_1111u8 == 0 {
            Some(PeerCtrlCode { bits })
        } else {
            None
        }
    }
}

} // verus!
