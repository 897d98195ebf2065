//! Answering hellos: the solution registered for hello events.
use crate::addr_v6::ip::SocketAddrV6;
use crate::addr_v6::scope::{
    lemma_socket_roundtrip, scope_well_formed, spec_scope_of_socket, spec_socket_of, Ipv6Scope,
    ScopeError, ScopeWithPort,
};
use crate::msg::msg::{Msg, MsgView};
use crate::peer::event::event::{PeerEvent, PeerEventView};
use crate::peer::peer_event_flags::PeerEventFlags;
use crate::peer::peer_event_solution::{
    apply_solution_records, solution_effects_view, DispatchResult, PeerEventSolution, SolutionContext,
    SolutionContextView, SolutionEffect, SolutionEffectView, SolutionError,
};
use crate::utils::uid::Uid;
use vstd::prelude::*;

verus! {

/// The solution for hello events.
#[derive(Debug, Default)]
pub struct HelloReply;

/// The address a hello from `addr` is answered at: a link-local sender is reached through
/// this host's own link-local interface.
pub open spec fn reply_dest(addr: Ipv6Scope, lan_scope_id: Option<u32>, port: u16) -> SocketAddrV6 {
    match addr {
        Ipv6Scope::Lan { addr: a, .. } => spec_socket_of(
            Ipv6Scope::Lan { addr: a, scope_id: lan_scope_id.unwrap() },
            port,
        ),
        Ipv6Scope::Wan(_) => spec_socket_of(addr, port),
    }
}

/// The effects of answering a hello from `host` at `addr`, for this host `local`: a hello
/// carrying this host's own identifier gets a conflict; any other gets a connect carrying
/// this host's identifier, sent to the reply address read back as a scope, then an
/// established event looped back and the peer recorded at `addr`. The reply address must
/// have a scope, else the task fails before doing anything.
pub open spec fn spec_hello_reply(
    host: Seq<char>,
    addr: Ipv6Scope,
    local: Seq<char>,
    lan_scope_id: Option<u32>,
    port: u16,
) -> Result<Seq<SolutionEffectView>, ScopeError> {
    if host == local {
        Ok(seq![SolutionEffectView::Send(MsgView::Conflict, addr)])
    } else {
        match spec_scope_of_socket(reply_dest(addr, lan_scope_id, port)) {
            Err(e) => Err(e),
            Ok(d) => Ok(
                seq![
                    SolutionEffectView::Send(MsgView::Connect { host_id: local }, d),
                    SolutionEffectView::Loopback(PeerEventView::Established),
                    SolutionEffectView::Record(host, addr),
                ],
            ),
        }
    }
}

impl HelloReply {
    /// The one instance.
    pub fn instance() -> (r: &'static HelloReply)
        ensures
            *r == HelloReply,
    {
        &HelloReply
    }
}

/// Answers a hello from `host_id` at `addr` in context `ctx`; see `spec_hello_reply`.
fn reply(host_id: Uid, addr: Ipv6Scope, ctx: &SolutionContext) -> (r: Result<
    Vec<SolutionEffect>,
    ScopeError,
>)
    requires
        addr is Lan && host_id@ != ctx.local_host_id@ ==> ctx.lan_scope_id is Some,
    ensures
        match (r, spec_hello_reply(host_id@, addr, ctx.local_host_id@, ctx.lan_scope_id, ctx.port)) {
            (Ok(fx), Ok(s)) => solution_effects_view(fx@) == s,
            (Err(e), Err(s)) => e == s,
            _ => false,
        },
{
    if ctx.local_host_id == host_id {
        let fx = vec![SolutionEffect::Send(Msg::Conflict, addr)];
        proof {
            assert(solution_effects_view(fx@) =~= seq![
                SolutionEffectView::Send(MsgView::Conflict, addr),
            ]);
        }
        return Ok(fx);
    }
    let outbound = match addr {
        Ipv6Scope::Lan { .. } => ScopeWithPort::new_outbound(
            addr,
            ctx.port,
            ctx.lan_scope_id.unwrap(),
        ),
        Ipv6Scope::Wan(_) => ScopeWithPort::new(addr, ctx.port),
    };
    let dest = outbound.into_socket_addr();
    let to = match Ipv6Scope::try_from_socket_addr(&dest) {
        Ok(s) => s,
        Err(e) => return Err(e),
    };
    let mut fx: Vec<SolutionEffect> = Vec::new();
    fx.push(SolutionEffect::Send(Msg::Connect { host_id: ctx.local_host_id.clone() }, to));
    fx.push(SolutionEffect::Loopback(PeerEvent::Established));
    fx.push(SolutionEffect::Record(host_id, addr));
    proof {
        assert(solution_effects_view(fx@) =~= spec_hello_reply(
            host_id@,
            addr,
            ctx.local_host_id@,
            ctx.lan_scope_id,
            ctx.port,
        ).unwrap());
    }
    Ok(fx)
}

impl PeerEventSolution for HelloReply {
    open spec fn spec_interest(&self) -> u8 {
        0b0000_0001
    }

    /// A hello is answered as `spec_hello_reply` says; any other event is refused.
    open spec fn spec_dispatch(&self, event: PeerEventView, ctx: SolutionContextView) -> Result<
        Seq<SolutionEffectView>,
        SolutionError,
    > {
        match event {
            PeerEventView::Hello { host_id, addr } => match spec_hello_reply(
                host_id,
                addr,
                ctx.local_host_id,
                ctx.lan_scope_id,
                ctx.port,
            ) {
                Ok(fx) => Ok(fx),
                Err(e) => Err(SolutionError::Scope(e)),
            },
            _ => Err(SolutionError::EventNotHandled),
        }
    }

    fn dispatch_solution(&self, event: PeerEvent, ctx: &SolutionContext) -> (r: DispatchResult) {
        match event {
            PeerEvent::Hello { host_id, addr } => match reply(host_id, addr, ctx) {
                Ok(fx) => Ok(fx),
                Err(e) => Err(SolutionError::Scope(e)),
            },
            _ => Err(SolutionError::EventNotHandled),
        }
    }

    fn interest(&self) -> (r: PeerEventFlags) {
        PeerEventFlags::hello()
    }
}

/// The scope a reply reaches: a link-local sender through this host's own link.
pub open spec fn outbound_scope(addr: Ipv6Scope, lan_scope_id: Option<u32>) -> Ipv6Scope {
    match addr {
        Ipv6Scope::Lan { addr: a, .. } => Ipv6Scope::Lan { addr: a, scope_id: lan_scope_id.unwrap() },
        Ipv6Scope::Wan(_) => addr,
    }
}

/// A hello from another host at a well-formed address is always answered: the connect goes
/// to that address, reached through this host's own link for a link-local sender, and the
/// peer is recorded at the address it announced.
pub proof fn lemma_hello_reply_reaches_sender(
    host: Seq<char>,
    addr: Ipv6Scope,
    local: Seq<char>,
    lan_scope_id: Option<u32>,
    port: u16,
)
    requires
        host != local,
        scope_well_formed(addr),
        addr is Lan ==> lan_scope_id is Some,
    ensures
        spec_hello_reply(host, addr, local, lan_scope_id, port) matches Ok(fx) && fx == seq![
            SolutionEffectView::Send(
                MsgView::Connect { host_id: local },
                outbound_scope(addr, lan_scope_id),
            ),
            SolutionEffectView::Loopback(PeerEventView::Established),
            SolutionEffectView::Record(host, addr),
        ],
{
    let d = outbound_scope(addr, lan_scope_id);
    lemma_socket_roundtrip(d, port);
    assert(reply_dest(addr, lan_scope_id, port) == spec_socket_of(d, port));
    let expected = seq![
        SolutionEffectView::Send(MsgView::Connect { host_id: local }, d),
        SolutionEffectView::Loopback(PeerEventView::Established),
        SolutionEffectView::Record(host, addr),
    ];
    assert(spec_hello_reply(host, addr, local, lan_scope_id, port).unwrap() =~= expected);
}

/// Carrying out a hello reply leaves the peer table with the sender at the address it
/// announced, overwriting an older entry and leaving every other peer as it was; a hello
/// of this host's own identifier leaves the table unchanged.
pub proof fn lemma_hello_reply_records_sender(
    t: Map<Seq<char>, Ipv6Scope>,
    host: Seq<char>,
    addr: Ipv6Scope,
    local: Seq<char>,
    lan_scope_id: Option<u32>,
    port: u16,
)
    ensures
        spec_hello_reply(host, addr, local, lan_scope_id, port) matches Ok(fx) ==> apply_solution_records(
            t,
            fx,
        ) == (if host == local {
            t
        } else {
            t.insert(host, addr)
        }),
{
    if let Ok(fx) = spec_hello_reply(host, addr, local, lan_scope_id, port) {
        if host == local {
            assert(fx.drop_last() =~= Seq::<SolutionEffectView>::empty());
            assert(apply_solution_records(t, fx.drop_last()) == t);
        } else {
            let f2 = fx.drop_last();
            let f1 = f2.drop_last();
            assert(f1.drop_last() =~= Seq::<SolutionEffectView>::empty());
            assert(apply_solution_records(t, f1.drop_last()) == t);
            assert(f1.last() is Send);
            assert(apply_solution_records(t, f1) == t);
            assert(f2.last() is Loopback);
            assert(apply_solution_records(t, f2) == t);
            assert(fx.last() == SolutionEffectView::Record(host, addr));
        }
    }
}

} // verus!
