//! The events the event executor works on: how far the exchange with a peer has come.
use crate::addr_v6::scope::Ipv6Scope;
use crate::utils::uid::Uid;
use vstd::prelude::*;

verus! {

/// What happened with a peer, as the event executor sees it.
#[derive(Debug)]
pub enum PeerEvent {
    /// A peer announced itself at an address.
    Hello { host_id: Uid, addr: Ipv6Scope },
    /// A peer asked to connect from an address.
    Connected { host_id: Uid, addr: Ipv6Scope },
    /// A peer was answered and is taken as paired.
    Established { host_id: Uid, addr: Ipv6Scope },
    /// A transfer with the peer is under way.
    Transferring(Uid),
    /// The peer could not be reached.
    Unreachable(Uid),
}

/// An event as the contracts see it, identifiers by their text.
pub enum PeerEventView {
    Hello { host_id: Seq<char>, addr: Ipv6Scope },
    Connected { host_id: Seq<char>, addr: Ipv6Scope },
    Established { host_id: Seq<char>, addr: Ipv6Scope },
    Transferring(Seq<char>),
    Unreachable(Seq<char>),
}

impl View for PeerEvent {
    type V = PeerEventView;

    open spec fn view(&self) -> PeerEventView {
        match self {
            PeerEvent::Hello { host_id, addr } => PeerEventView::Hello { host_id: host_id@, addr: *addr },
            PeerEvent::Connected { host_id, addr } => PeerEventView::Connected {
                host_id: host_id@,
                addr: *addr,
            },
            PeerEvent::Established { host_id, addr } => PeerEventView::Established {
                host_id: host_id@,
                addr: *addr,
            },
            PeerEvent::Transferring(h) => PeerEventView::Transferring(h@),
            PeerEvent::Unreachable(h) => PeerEventView::Unreachable(h@),
        }
    }
}

impl Clone for PeerEvent {
    fn clone(&self) -> (r: Self)
        ensures
            r@ == self@,
    {
        match self {
            PeerEvent::Hello { host_id, addr } => PeerEvent::Hello { host_id: host_id.clone(), addr: *addr },
            PeerEvent::Connected { host_id, addr } => PeerEvent::Connected {
                host_id: host_id.clone(),
                addr: *addr,
            },
            PeerEvent::Established { host_id, addr } => PeerEvent::Established {
                host_id: host_id.clone(),
                addr: *addr,
            },
            PeerEvent::Transferring(h) => PeerEvent::Transferring(h.clone()),
            PeerEvent::Unreachable(h) => PeerEvent::Unreachable(h.clone()),
        }
    }
}

} // verus!
