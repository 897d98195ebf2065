use crate::addr_v6::scope::Ipv6Scope;
use crate::utils::uid::Uid;
use vstd::prelude::*;

verus! {

/// A protocol message.
#[derive(Debug, Clone)]
pub enum Msg {
    /// Announces a host and the address it can be reached at.
    Hello { host_id: Uid, addr: Ipv6Scope },
    /// Asks the receiver to pair with the sending host.
    Connect { host_id: Uid },
    /// Tells the receiver that its identifier is taken.
    Conflict,
}

/// A message as the contracts see it, identifiers by their text.
pub enum MsgView {
    Hello { host_id: Seq<char>, addr: Ipv6Scope },
    Connect { host_id: Seq<char> },
    Conflict,
}

impl View for Msg {
    type V = MsgView;

    open spec fn view(&self) -> MsgView {
        match self {
            Msg::Hello { host_id, addr } => MsgView::Hello { host_id: host_id@, addr: *addr },
            Msg::Connect { host_id } => MsgView::Connect { host_id: host_id@ },
            Msg::Conflict => MsgView::Conflict,
        }
    }
}

/// A message with the address it came from or goes to.
pub type Parcel = (Msg, Ipv6Scope);

} // verus!
