//! Solutions as the event executor sees them: services that subscribe to kinds of
//! peer events and say what to do when one arrives.
use crate::addr_v6::ip::SocketAddrV6;
use crate::addr_v6::scope::Ipv6Scope;
use crate::msg::ctrl_msg::{CtrlMsg, CtrlMsgView};
use crate::event::peer_event::{PeerEvent, PeerEventView};
use crate::utils::uid::Uid;
use super::hello_reply::HelloReplyError;
use vstd::prelude::*;

verus! {

/// What answering an event does.
#[derive(Debug)]
pub enum ReplyEffect {
    /// Send the control message to the socket address.
    SendCtrl(CtrlMsg, SocketAddrV6),
    /// Feed the peer back to the executor as established.
    Established(Uid, Ipv6Scope),
    /// Record (or update) where the peer is, in the executor's peer table.
    Record(Uid, Ipv6Scope),
}

/// An effect as the contracts see it.
pub enum ReplyEffectView {
    SendCtrl(CtrlMsgView, SocketAddrV6),
    Established(Seq<char>, Ipv6Scope),
    Record(Seq<char>, Ipv6Scope),
}

impl View for ReplyEffect {
    type V = ReplyEffectView;

    open spec fn view(&self) -> ReplyEffectView {
        match self {
            ReplyEffect::SendCtrl(m, to) => ReplyEffectView::SendCtrl(m@, *to),
            ReplyEffect::Established(h, a) => ReplyEffectView::Established(h@, *a),
            ReplyEffect::Record(h, a) => ReplyEffectView::Record(h@, *a),
        }
    }
}

/// The effects of a list, as the contracts see them.
pub open spec fn reply_effects_view(fx: Seq<ReplyEffect>) -> Seq<ReplyEffectView> {
    fx.map_values(|e: ReplyEffect| e@)
}

/// What a solution answers with: this host's identifier, its best link-local scope and the
/// protocol port.
#[derive(Debug)]
pub struct ReplyContext {
    pub local_host_id: Uid,
    pub local_link: Ipv6Scope,
    pub port: u16,
}

/// A context as the contracts see it.
pub struct ReplyContextView {
    pub local_host_id: Seq<char>,
    pub local_link: Ipv6Scope,
    pub port: u16,
}

impl View for ReplyContext {
    type V = ReplyContextView;

    open spec fn view(&self) -> ReplyContextView {
        ReplyContextView {
            local_host_id: self.local_host_id@,
            local_link: self.local_link,
            port: self.port,
        }
    }
}

/// Why a solution refused an event.
#[derive(Debug, Clone, Copy, PartialEq, Eq)]
pub enum CrossError {
    /// The hello reply was handed an event other than a hello.
    HelloReply(HelloReplyError),
}

/// A solution of a known type, as the executor keeps it: a reference to a trait object.
pub open spec fn as_subscriber<S: PeerEventSolution>(s: &'static S) -> &'static dyn PeerEventSolution {
    s
}

/// A subscriber to peer events: it names the kinds it wants, and for an event of those
/// kinds it says what to do. Each solution states both by its spec functions.
pub trait PeerEventSolution {
    /// The control-code bits of the kinds it wants.
    spec fn spec_interest(&self) -> u8;

    /// What handing it an event in a context yields.
    spec fn spec_dispatch(&self, event: PeerEventView, ctx: ReplyContextView) -> Result<
        Seq<ReplyEffectView>,
        CrossError,
    >;

    /// Decides what to do about an event.
    fn dispatch_solution(&self, event: PeerEvent, ctx: &ReplyContext) -> (r: Result<
        Vec<ReplyEffect>,
        CrossError,
    >)
        ensures
            match r {
                Ok(fx) => self.spec_dispatch(event@, ctx@) == Ok::<
                    Seq<ReplyEffectView>,
                    CrossError,
                >(reply_effects_view(fx@)),
                Err(e) => self.spec_dispatch(event@, ctx@) == Err::<
                    Seq<ReplyEffectView>,
                    CrossError,
                >(e),
            },
    ;

    /// The kinds it wants.
    fn interest(&self) -> (r: u8)
        ensures
            r == self.spec_interest(),
    ;
}

} // verus!
