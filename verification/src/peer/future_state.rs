use crate::addr_v6::scope::Ipv6Scope;
use crate::utils::uid::Uid;
use vstd::prelude::*;

verus! {

/// The next step planned for a peer, with its address.
#[derive(Eq, Hash, PartialEq, Debug, Clone, Copy)]
pub enum PeerFutureState {
    /// Kept after sending the greeting.
    Connect(Ipv6Scope),
    /// Kept once confirmed.
    Establish(Ipv6Scope),
    Dispose(Ipv6Scope),
    Disconnect(Ipv6Scope),
}

impl PeerFutureState {
    /// A hello's host and address give a peer to connect to.
    pub fn from_hello(host_id: Uid, addr: Ipv6Scope) -> (r: (Uid, PeerFutureState))
        ensures
            r.0@ == host_id@,
            r.1 == PeerFutureState::Connect(addr),
    {
        (host_id, PeerFutureState::Connect(addr))
    }
}

} // verus!
