use crate::addr_v6::scope::Ipv6Scope;
use vstd::prelude::*;

verus! {

/// Where a session with a peer stands, with the peer's address.
#[derive(PartialEq, Eq, Hash, Debug, Clone, Copy)]
pub enum PeerState {
    /// This host has made itself known to the peer.
    Connect(Ipv6Scope),
    /// Both sides know of each other.
    Establish(Ipv6Scope),
}

/// The bits that mark session states in option messages.
#[derive(Debug, Clone, Copy, PartialEq, Eq)]
pub struct PeerStateCode {
    pub bits: u8,
}

impl PeerStateCode {
    pub fn connecting() -> (r: PeerStateCode)
        ensures
            r.bits == 0b0000_0001,
    {
        PeerStateCode { bits: 0b0000_0001 }
    }

    pub fn established() -> (r: PeerStateCode)
        ensures
            r.bits == 0b0000_0010,
    {
        PeerStateCode { bits: 0b0000_0010 }
    }

    pub fn bits(&self) -> (r: u8)
        ensures
            r == self.bits,
    {
        self.bits
    }

    /// The code with exactly these bits, when each is a named one.
    pub fn from_bits(bits: u8) -> (r: Option<PeerStateCode>)
        ensures
            r is Some <==> bits & !0b0000_0011u8 == 0,
            r matches Some(c) ==> c.bits == bits,
    {
        if bits & !0b0000_0011u8 == 0 {
            Some(PeerStateCode { bits })
        } else {
            None
        }
    }
}

} // verus!
