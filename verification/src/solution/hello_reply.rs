//! Answering hellos with a connection request.
use super::peer_event_solution::{
    reply_effects_view, CrossError, PeerEventSolution, ReplyContext, ReplyContextView,
    ReplyEffect, ReplyEffectView,
};
use crate::addr_v6::scope::{scope_addr, spec_socket_of, Ipv6Scope, ScopeWithPort};
use crate::msg::ctrl_msg::{CtrlMsg, CtrlMsgView};
use crate::event::peer_event::{PeerEvent, PeerEventView};
use crate::protocol::peer_ctrl_code::PeerCtrlCode;
use crate::utils::uid::Uid;
use vstd::prelude::*;

verus! {

/// The solution for hello events.
#[derive(Debug)]
pub struct HelloReply {
    interest: u8,
}

/// Why the hello reply refused an event.
#[derive(Debug, Clone, Copy, PartialEq, Eq)]
pub enum HelloReplyError {
    EventNotMatch,
}

/// The work of answering one hello.
#[derive(Debug)]
pub struct HelloReplyJob {
    pub host_id: Uid,
    pub addr: Ipv6Scope,
}

/// Answering the hello of `host_id` from `addr`, as this host (`local_host_id`, at
/// `local_link`): a connection request (control code 2, version 0, carrying this host and
/// its link) to the sender's socket at the protocol port, then the peer reported as
/// established, then recorded.
pub open spec fn spec_reply_effects(
    host_id: Seq<char>,
    addr: Ipv6Scope,
    local_host_id: Seq<char>,
    local_link: Ipv6Scope,
    port: u16,
) -> Seq<ReplyEffectView> {
    seq![
        ReplyEffectView::SendCtrl(
            CtrlMsgView { version: 0, ctrl_code: 0b0000_0010, host_id: local_host_id, addr: local_link },
            spec_socket_of(addr, port),
        ),
        ReplyEffectView::Established(host_id, addr),
        ReplyEffectView::Record(host_id, addr),
    ]
}

/// The connection request answering a hello goes to the hello's sender, at the address and
/// (for a link-local sender) the scope identifier the hello came with, on the protocol port;
/// it carries control code 2, version 0, this host's identifier and its own link. The sender
/// is then reported as established and recorded, both at the address it came from.
pub proof fn lemma_reply_goes_to_sender(
    host_id: Seq<char>,
    addr: Ipv6Scope,
    local_host_id: Seq<char>,
    local_link: Ipv6Scope,
    port: u16,
)
    ensures
        ({
            let fx = spec_reply_effects(host_id, addr, local_host_id, local_link, port);
            &&& fx.len() == 3
            &&& fx[0] matches ReplyEffectView::SendCtrl(m, to) && {
                &&& to.ip == scope_addr(addr)
                &&& to.port == port
                &&& to.flowinfo == 0
                &&& to.scope_id == (match addr {
                    Ipv6Scope::Lan { scope_id, .. } => scope_id,
                    Ipv6Scope::Wan(_) => 0u32,
                })
                &&& m.ctrl_code == 2 && m.version == 0
                &&& m.host_id == local_host_id && m.addr == local_link
            }
            &&& fx[1] == ReplyEffectView::Established(host_id, addr)
            &&& fx[2] == ReplyEffectView::Record(host_id, addr)
        }),
{
}

/// What the hello reply does with an event: a hello is answered, anything else refused.
pub open spec fn spec_hello_reply(event: PeerEventView, ctx: ReplyContextView) -> Result<
    Seq<ReplyEffectView>,
    CrossError,
> {
    match event {
        PeerEventView::Hello { host_id, addr } => Ok(
            spec_reply_effects(host_id, addr, ctx.local_host_id, ctx.local_link, ctx.port),
        ),
        _ => Err(CrossError::HelloReply(HelloReplyError::EventNotMatch)),
    }
}

/// The hello reply: the solution interested in hellos.
pub closed spec fn the_hello_reply() -> HelloReply {
    HelloReply { interest: 0b0000_0001 }
}

/// The one instance, interested in hellos.
pub fn hello_reply() -> (r: &'static HelloReply)
    ensures
        *r == the_hello_reply(),
        r.spec_interest() == 0b0000_0001,
{
    &HelloReply { interest: 0b0000_0001 }
}

impl HelloReply {
    /// A solution interested in hello events.
    pub fn new() -> (r: Self)
        ensures
            r.spec_interest() == 0b0000_0001,
    {
        HelloReply { interest: PeerCtrlCode::hello().bits() }
    }
}

impl PeerEventSolution for HelloReply {
    closed spec fn spec_interest(&self) -> u8 {
        self.interest
    }

    open spec fn spec_dispatch(&self, event: PeerEventView, ctx: ReplyContextView) -> Result<
        Seq<ReplyEffectView>,
        CrossError,
    > {
        spec_hello_reply(event, ctx)
    }

    /// Takes on a hello event and answers it; any other event is refused.
    fn dispatch_solution(&self, event: PeerEvent, ctx: &ReplyContext) -> (r: Result<
        Vec<ReplyEffect>,
        CrossError,
    >) {
        match event {
            PeerEvent::Hello { host_id, addr } => {
                let job = HelloReplyJob { host_id, addr };
                Ok(job.run(&ctx.local_host_id, ctx.local_link, ctx.port))
            },
            _ => Err(CrossError::HelloReply(HelloReplyError::EventNotMatch)),
        }
    }

    /// The control code of the events this solution handles.
    fn interest(&self) -> (r: u8) {
        self.interest
    }
}

impl HelloReplyJob {
    /// Answers the hello for the host `local_host_id` at `local_link`.
    pub fn run(self, local_host_id: &Uid, local_link: Ipv6Scope, port: u16) -> (r: Vec<ReplyEffect>)
        ensures
            reply_effects_view(r@) == spec_reply_effects(
                self.host_id@,
                self.addr,
                local_host_id@,
                local_link,
                port,
            ),
            r@.len() == 3,
            r@[0] matches ReplyEffect::SendCtrl(_, to) && to.ip == scope_addr(self.addr) && to.port
                == port,
    {
        proof {
            lemma_reply_goes_to_sender(self.host_id@, self.addr, local_host_id@, local_link, port);
        }
        let request = CtrlMsg::new(PeerCtrlCode::connect().bits(), local_host_id.clone(), local_link);
        let dest = ScopeWithPort::new(self.addr, port).into_socket_addr();
        let ghost host = self.host_id@;
        let mut fx: Vec<ReplyEffect> = Vec::new();
        fx.push(ReplyEffect::SendCtrl(request, dest));
        fx.push(ReplyEffect::Established(self.host_id.clone(), self.addr));
        fx.push(ReplyEffect::Record(self.host_id, self.addr));
        proof {
            assert(reply_effects_view(fx@) =~= spec_reply_effects(
                host,
                self.addr,
                local_host_id@,
                local_link,
                port,
            ));
        }
        fx
    }
}

} // verus!
