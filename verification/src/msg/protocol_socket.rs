//! The single link-local protocol socket: how it is opened, where parcels go and which
//! datagrams come in as parcels.
use super::msg::{Msg, Parcel};
use super::socket::{SocketError, SocketPlan};
use super::splitter::{spec_inbound, MsgSplitter};
use crate::addr_v6::ip::{Ipv6Addr, SocketAddr, SocketAddrV6};
use crate::addr_v6::scope::{spec_scope_of_iface, spec_socket_of, Ipv6Scope, ScopeWithPort};
use crate::utils::env::Env;
use crate::utils::nic::NetIface;
use vstd::prelude::*;

verus! {

/// The plan for the protocol socket on the chosen link-local interface: it binds the
/// interface's scope at the protocol port and joins the link-local group on the link it
/// bound to.
pub open spec fn spec_init_plan(lan: Option<NetIface>, port: u16, env_group: Ipv6Addr) -> Result<
    SocketPlan,
    SocketError,
> {
    match lan {
        None => Err(SocketError::LanUnavailable),
        Some(i) => match spec_scope_of_iface(i) {
            Err(e) => Err(SocketError::Scope(e)),
            Ok(s) => Ok(
                SocketPlan {
                    bind_addr: spec_socket_of(s, port),
                    multicast_group: env_group,
                    multicast_iface: spec_socket_of(s, port).scope_id,
                },
            ),
        },
    }
}

/// The protocol socket.
pub struct ProtocolSocket;

impl ProtocolSocket {
    /// How to open the protocol socket on the chosen link-local interface.
    pub fn init(lan: &Option<NetIface>, env: &Env) -> (r: Result<SocketPlan, SocketError>)
        ensures
            r == spec_init_plan(*lan, env.protocol_port, env.multicast_lan),
    {
        let iface = match lan {
            Some(i) => i,
            None => return Err(SocketError::LanUnavailable),
        };
        let iface_linklocal = match Ipv6Scope::try_from_interface(iface) {
            Ok(s) => s,
            Err(e) => return Err(SocketError::Scope(e)),
        };
        let outbound = match iface_linklocal {
            Ipv6Scope::Lan { .. } => ScopeWithPort::new_outbound(
                iface_linklocal,
                env.protocol_port,
                iface.scope_id.unwrap(),
            ),
            Ipv6Scope::Wan(_) => ScopeWithPort::new_outbound(iface_linklocal, env.protocol_port, 0),
        };
        let sock_addr: SocketAddrV6 = outbound.into_socket_addr();
        Ok(
            SocketPlan {
                bind_addr: sock_addr,
                multicast_group: env.multicast_lan,
                multicast_iface: sock_addr.scope_id,
            },
        )
    }

    /// The socket address a parcel for `dest` is sent to.
    pub fn outbound_addr(dest: Ipv6Scope, env: &Env) -> (r: SocketAddrV6)
        ensures
            r == spec_socket_of(dest, env.protocol_port),
    {
        ScopeWithPort::new(dest, env.protocol_port).into_socket_addr()
    }

    /// The parcel a received datagram gives, if its sender has a usable IPv6 scope.
    pub fn inbound(msg: Msg, src: SocketAddr) -> (r: Option<Parcel>)
        ensures
            match (r, spec_inbound(src)) {
                (Some(p), Some(s)) => p.1 == s && p.0@ == msg@,
                (None, None) => true,
                _ => false,
            },
    {
        MsgSplitter::inbound_parcel(msg, src)
    }
}

} // verus!
