use super::flags::PeerEventFlags;
use crate::addr_v6::scope::{spec_scope_id, Ipv6Scope};
use crate::msg::msg::{Msg, Parcel};
use crate::utils::uid::Uid;
use vstd::prelude::*;

verus! {

/// What happened with a peer.
#[derive(Debug)]
pub enum PeerEvent {
    Hello { host_id: Uid, addr: Ipv6Scope },
    Connect { host_id: Uid, addr: Ipv6Scope },
    Conflict { addr: Ipv6Scope },
    /// Raised by the handler itself after pairing; no parcel turns into it.
    Established,
}

impl Clone for PeerEvent {
    fn clone(&self) -> (r: Self)
        ensures
            r@ == self@,
    {
        match self {
            PeerEvent::Hello { host_id, addr } => PeerEvent::Hello { host_id: host_id.clone(), addr: *addr },
            PeerEvent::Connect { host_id, addr } => PeerEvent::Connect {
                host_id: host_id.clone(),
                addr: *addr,
            },
            PeerEvent::Conflict { addr } => PeerEvent::Conflict { addr: *addr },
            PeerEvent::Established => PeerEvent::Established,
        }
    }
}

/// An event as the contracts see it, identifiers by their text.
pub enum PeerEventView {
    Hello { host_id: Seq<char>, addr: Ipv6Scope },
    Connect { host_id: Seq<char>, addr: Ipv6Scope },
    Conflict { addr: Ipv6Scope },
    Established,
}

impl View for PeerEvent {
    type V = PeerEventView;

    open spec fn view(&self) -> PeerEventView {
        match self {
            PeerEvent::Hello { host_id, addr } => PeerEventView::Hello {
                host_id: host_id@,
                addr: *addr,
            },
            PeerEvent::Connect { host_id, addr } => PeerEventView::Connect {
                host_id: host_id@,
                addr: *addr,
            },
            PeerEvent::Conflict { addr } => PeerEventView::Conflict { addr: *addr },
            PeerEvent::Established => PeerEventView::Established,
        }
    }
}

/// The scope announced in a hello, with the scope identifier of the link the hello
/// arrived on when both are link-local.
pub open spec fn rescoped(announced: Ipv6Scope, arrived: Ipv6Scope) -> Ipv6Scope {
    match (announced, spec_scope_id(arrived)) {
        (Ipv6Scope::Lan { addr, .. }, Some(n)) => Ipv6Scope::Lan { addr, scope_id: n },
        _ => announced,
    }
}

/// The event a parcel stands for: a hello names the announced host and address (rescoped to
/// the arrival link), a connect names the host and the address it came from, a conflict the
/// address it came from.
pub open spec fn spec_event_of(msg: Msg, from: Ipv6Scope) -> PeerEventView {
    match msg {
        Msg::Hello { host_id, addr } => PeerEventView::Hello {
            host_id: host_id@,
            addr: rescoped(addr, from),
        },
        Msg::Connect { host_id } => PeerEventView::Connect { host_id: host_id@, addr: from },
        Msg::Conflict => PeerEventView::Conflict { addr: from },
    }
}

/// The flag bits of an event kind.
pub open spec fn spec_event_bits(e: PeerEventView) -> u8 {
    match e {
        PeerEventView::Hello { .. } => 0b0000_0001,
        PeerEventView::Connect { .. } => 0b0000_0010,
        PeerEventView::Conflict { .. } => 0b0000_0011,
        PeerEventView::Established => 0b0000_0100,
    }
}

/// No received parcel stands for an established event; the handler raises those itself.
pub proof fn lemma_parcels_never_establish(msg: Msg, from: Ipv6Scope)
    ensures
        !(spec_event_of(msg, from) is Established),
{
}

impl PeerEvent {
    /// The event that a received parcel stands for.
    pub fn from_parcel(val: Parcel) -> (r: PeerEvent)
        ensures
            r@ == spec_event_of(val.0, val.1),
    {
        match val {
            (Msg::Hello { host_id, addr }, multi) => {
                let mut addr = addr;
                addr.modify_scope_id(multi.scope_id());
                PeerEvent::Hello { host_id, addr }
            },
            (Msg::Connect { host_id }, addr) => PeerEvent::Connect { host_id, addr },
            (Msg::Conflict, addr) => PeerEvent::Conflict { addr },
        }
    }

    /// The flag bits of the event's kind.
    pub fn flag_bits(&self) -> (r: u8)
        ensures
            r == spec_event_bits(self@),
    {
        match self {
            PeerEvent::Hello { .. } => PeerEventFlags::hello().bits(),
            PeerEvent::Connect { .. } => PeerEventFlags::connect().bits(),
            PeerEvent::Conflict { .. } => PeerEventFlags::conflict().bits(),
            PeerEvent::Established => PeerEventFlags::established().bits(),
        }
    }
}

} // verus!
