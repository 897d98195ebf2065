//! Which parcels come in from the sockets, and which socket a parcel goes out of.
use super::msg::{Msg, Parcel};
use crate::addr_v6::ip::{SocketAddr, SocketAddrV6};
use crate::addr_v6::scope::{
    scope_addr, spec_scope_of_socket, spec_socket_of, Ipv6Scope, ScopeWithPort,
};
use vstd::prelude::*;

verus! {

/// The two outgoing sockets.
#[derive(Debug, Clone, Copy, PartialEq, Eq)]
pub enum SinkSide {
    Lan,
    Wan,
}

/// The parcel a received datagram gives: none for an IPv4 sender, none for an IPv6 sender
/// whose address has no usable scope, else the message with the sender's scope.
pub open spec fn spec_inbound(src: SocketAddr) -> Option<Ipv6Scope> {
    match src {
        SocketAddr::V4 { .. } => None,
        SocketAddr::V6(sa) => match spec_scope_of_socket(sa) {
            Ok(s) => Some(s),
            Err(_) => None,
        },
    }
}

/// Where a parcel for `dest` leaves: a `Lan` destination through the link-local socket, a
/// `Wan` one through the global socket, each only when that socket is open; the socket
/// address is the destination at the protocol port.
pub open spec fn spec_route(dest: Ipv6Scope, lan_open: bool, wan_open: bool, port: u16) -> Option<
    (SinkSide, SocketAddrV6),
> {
    match dest {
        Ipv6Scope::Lan { .. } => if lan_open {
            Some((SinkSide::Lan, spec_socket_of(dest, port)))
        } else {
            None
        },
        Ipv6Scope::Wan(_) => if wan_open {
            Some((SinkSide::Wan, spec_socket_of(dest, port)))
        } else {
            None
        },
    }
}

/// Moves parcels between the sockets and the event handling.
pub struct MsgSplitter;

impl MsgSplitter {
    /// Turns a datagram received from `src` into a parcel, or drops it.
    pub fn inbound_parcel(msg: Msg, src: SocketAddr) -> (r: Option<Parcel>)
        ensures
            match (r, spec_inbound(src)) {
                (Some(p), Some(s)) => p.1 == s && p.0@ == msg@,
                (None, None) => true,
                _ => false,
            },
    {
        let sock_addr = match src {
            SocketAddr::V6(sa) => sa,
            SocketAddr::V4 { .. } => return None,
        };
        match Ipv6Scope::try_from_socket_addr(&sock_addr) {
            Ok(addr) => Some((msg, addr)),
            Err(_) => None,
        }
    }

    /// The socket a parcel for `dest` leaves through, and the socket address it is sent to;
    /// `None` when no suitable socket is open, and the parcel is dropped.
    pub fn route(dest: Ipv6Scope, lan_open: bool, wan_open: bool, port: u16) -> (r: Option<
        (SinkSide, SocketAddrV6),
    >)
        ensures
            r == spec_route(dest, lan_open, wan_open, port),
    {
        match dest {
            Ipv6Scope::Lan { .. } => if lan_open {
                Some((SinkSide::Lan, ScopeWithPort::new(dest, port).into_socket_addr()))
            } else {
                None
            },
            Ipv6Scope::Wan(_) => if wan_open {
                Some((SinkSide::Wan, ScopeWithPort::new(dest, port).into_socket_addr()))
            } else {
                None
            },
        }
    }
}

/// Every parcel that is routed goes out of the socket of its destination's reach (link-local
/// for a `Lan` destination, global for a `Wan` one) to the destination's own address at the
/// protocol port, with no flow label, and with the destination's scope identifier for a
/// `Lan` one (none for a `Wan` one); it is routed exactly when that socket is open.
pub proof fn lemma_route_to_destination_at_port(
    dest: Ipv6Scope,
    lan_open: bool,
    wan_open: bool,
    port: u16,
)
    ensures
        spec_route(dest, lan_open, wan_open, port) is Some <==> (dest is Lan && lan_open) || (
        dest is Wan && wan_open),
        spec_route(dest, lan_open, wan_open, port) matches Some((side, sa)) ==> {
            &&& sa.port == port
            &&& sa.ip == scope_addr(dest)
            &&& sa.flowinfo == 0
            &&& sa.scope_id == (match dest {
                Ipv6Scope::Lan { scope_id, .. } => scope_id,
                Ipv6Scope::Wan(_) => 0u32,
            })
            &&& (side == SinkSide::Lan <==> dest is Lan)
        },
{
}

/// A datagram from an IPv4 sender never becomes a parcel; one from an IPv6 sender that
/// does carries the sender's address, and for a link-local sender its scope identifier.
pub proof fn lemma_inbound_keeps_sender(src: SocketAddr)
    ensures
        src is V4 ==> spec_inbound(src) is None,
        src matches SocketAddr::V6(sa) ==> (spec_inbound(src) matches Some(s) ==> scope_addr(s)
            == sa.ip && (s matches Ipv6Scope::Lan { scope_id, .. } ==> scope_id == sa.scope_id)),
{
    if let SocketAddr::V6(sa) = src {
        crate::addr_v6::scope::lemma_socket_scope_keeps_address(sa);
    }
}

/// A parcel routed out to a well-formed destination and received back from the address it
/// was sent to carries that same destination as its sender.
pub proof fn lemma_route_then_receive(dest: Ipv6Scope, lan_open: bool, wan_open: bool, port: u16)
    requires
        crate::addr_v6::scope::scope_well_formed(dest),
    ensures
        spec_route(dest, lan_open, wan_open, port) matches Some((_, sa)) ==> spec_inbound(
            SocketAddr::V6(sa),
        ) == Some(dest),
{
    crate::addr_v6::scope::lemma_socket_roundtrip(dest, port);
}

} // verus!
