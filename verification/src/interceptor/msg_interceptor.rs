//! The filter between the protocol socket and event handling: messages that carry this
//! host's own identifier are dropped.
use crate::msg::msg::{Msg, MsgView};
use crate::utils::uid::Uid;
use vstd::prelude::*;

verus! {

/// Whether a message is passed on for the host `local`: a hello or a connect only when it
/// carries another host's identifier; a conflict, which carries none, always.
pub open spec fn spec_forwards(msg: MsgView, local: Seq<char>) -> bool {
    match msg {
        MsgView::Hello { host_id, .. } => host_id != local,
        MsgView::Connect { host_id } => host_id != local,
        MsgView::Conflict => true,
    }
}

/// Drops the messages this host sent itself.
pub struct MsgInterceptor;

impl MsgInterceptor {
    /// Whether `msg` is passed on to event handling; see `spec_forwards`.
    pub fn filtering(msg: &Msg, local_host_id: &Uid) -> (r: bool)
        ensures
            r == spec_forwards(msg@, local_host_id@),
    {
        match msg {
            Msg::Hello { host_id, .. } => *host_id != *local_host_id,
            Msg::Connect { host_id } => *host_id != *local_host_id,
            Msg::Conflict => true,
        }
    }
}

} // verus!
