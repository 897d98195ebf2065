//! Services that react to peer events, as the event handler sees them.
use super::event::event::{PeerEvent, PeerEventView};
use super::peer_event_flags::PeerEventFlags;
use crate::addr_v6::scope::{scope_error_text, Ipv6Scope, ScopeError};
use crate::msg::msg::{Msg, MsgView};
use crate::utils::uid::Uid;
use vstd::prelude::*;

verus! {

/// Something a solution asks its surroundings to do.
#[derive(Debug)]
pub enum SolutionEffect {
    /// Send a message to an address.
    Send(Msg, Ipv6Scope),
    /// Feed an event back into the handler's queue.
    Loopback(PeerEvent),
    /// Record (or update) where a peer is, in the shared peer table.
    Record(Uid, Ipv6Scope),
}

/// An effect as the contracts see it.
pub enum SolutionEffectView {
    Send(MsgView, Ipv6Scope),
    Loopback(PeerEventView),
    Record(Seq<char>, Ipv6Scope),
}

impl View for SolutionEffect {
    type V = SolutionEffectView;

    open spec fn view(&self) -> SolutionEffectView {
        match self {
            SolutionEffect::Send(m, a) => SolutionEffectView::Send(m@, *a),
            SolutionEffect::Loopback(e) => SolutionEffectView::Loopback(e@),
            SolutionEffect::Record(u, a) => SolutionEffectView::Record(u@, *a),
        }
    }
}

/// The effects of a list, as the contracts see them.
pub open spec fn solution_effects_view(fx: Seq<SolutionEffect>) -> Seq<SolutionEffectView> {
    fx.map_values(|e: SolutionEffect| e@)
}

/// The peer table after the records among the effects, in order: each `Record` enters
/// (or overwrites) the peer's scope; other effects leave the table alone.
pub open spec fn apply_solution_records(
    t: Map<Seq<char>, Ipv6Scope>,
    fx: Seq<SolutionEffectView>,
) -> Map<Seq<char>, Ipv6Scope>
    decreases fx.len(),
{
    if fx.len() == 0 {
        t
    } else {
        let before = apply_solution_records(t, fx.drop_last());
        match fx.last() {
            SolutionEffectView::Record(h, a) => before.insert(h, a),
            _ => before,
        }
    }
}

/// What a solution gets to work with: this host's identifier, the scope identifier of its
/// link-local interface, and the protocol port.
#[derive(Debug)]
pub struct SolutionContext {
    pub local_host_id: Uid,
    pub lan_scope_id: Option<u32>,
    pub port: u16,
}

/// A context as the contracts see it.
pub struct SolutionContextView {
    pub local_host_id: Seq<char>,
    pub lan_scope_id: Option<u32>,
    pub port: u16,
}

impl View for SolutionContext {
    type V = SolutionContextView;

    open spec fn view(&self) -> SolutionContextView {
        SolutionContextView {
            local_host_id: self.local_host_id@,
            lan_scope_id: self.lan_scope_id,
            port: self.port,
        }
    }
}

/// A solution of a known type, as the handler keeps it: a reference to a trait object.
pub open spec fn as_solution<S: PeerEventSolution>(s: &'static S) -> &'static dyn PeerEventSolution {
    s
}

/// The context serves the event: answering a hello from another host at a link-local
/// address takes this host's own link-local interface, so its scope identifier must be
/// known then; every other event can be handled without it.
pub open spec fn context_serves(event: PeerEventView, ctx: SolutionContextView) -> bool {
    event matches PeerEventView::Hello { host_id, addr } && addr is Lan && host_id
        != ctx.local_host_id ==> ctx.lan_scope_id is Some
}

/// Why a solution did not handle an event.
#[derive(Debug, Clone, Copy, PartialEq, Eq)]
pub enum SolutionError {
    /// The solution cannot handle this kind of event.
    EventNotHandled,
    /// The address to answer at has no usable scope.
    Scope(ScopeError),
}

impl SolutionError {
    /// The text that reports the error.
    pub fn message(&self) -> (r: &'static str)
        ensures
            *self == SolutionError::EventNotHandled ==> r@
                == "hello replay solution can not handle this event"@,
            (*self matches SolutionError::Scope(e) ==> r@ == scope_error_text(e)),
    {
        match self {
            SolutionError::EventNotHandled => "hello replay solution can not handle this event",
            SolutionError::Scope(e) => e.message(),
        }
    }
}

/// The outcome of handing an event to a solution.
pub type DispatchResult = Result<Vec<SolutionEffect>, SolutionError>;

/// A service that registers for some kinds of peer events and says what to do about them.
/// Each solution states, by its spec functions, the kinds it wants and what it does.
pub trait PeerEventSolution {
    /// The flag bits of the kinds of events this solution wants.
    spec fn spec_interest(&self) -> u8;

    /// What handing it an event in a context yields.
    spec fn spec_dispatch(&self, event: PeerEventView, ctx: SolutionContextView) -> Result<
        Seq<SolutionEffectView>,
        SolutionError,
    >;

    /// Decides what to do about an event.
    fn dispatch_solution(&self, event: PeerEvent, ctx: &SolutionContext) -> (r: DispatchResult)
        requires
            context_serves(event@, ctx@),
        ensures
            match r {
                Ok(fx) => self.spec_dispatch(event@, ctx@) == Ok::<
                    Seq<SolutionEffectView>,
                    SolutionError,
                >(solution_effects_view(fx@)),
                Err(e) => self.spec_dispatch(event@, ctx@) == Err::<
                    Seq<SolutionEffectView>,
                    SolutionError,
                >(e),
            },
    ;

    /// The kinds of events it wants.
    fn interest(&self) -> (r: PeerEventFlags)
        ensures
            r.bits == self.spec_interest(),
    ;
}

} // verus!
