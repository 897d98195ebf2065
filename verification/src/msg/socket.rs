//! Where the protocol's sockets bind and which multicast group they join.
use crate::addr_v6::ip::{Ipv6Addr, SocketAddrV6};
use crate::addr_v6::scope::{
    spec_scope_of_iface, spec_socket_of, Ipv6Scope, ScopeError, ScopeWithPort,
};
use crate::utils::env::Env;
use crate::utils::nic::NetIface;
use vstd::prelude::*;

verus! {

/// How to open one protocol socket: the address to bind (IPv6 only, without multicast
/// loopback), the group to join and the interface index to join it on.
#[derive(Debug, Clone, Copy, PartialEq, Eq)]
pub struct SocketPlan {
    pub bind_addr: SocketAddrV6,
    pub multicast_group: Ipv6Addr,
    pub multicast_iface: u32,
}

/// Why a protocol socket cannot be opened.
#[derive(Debug, Clone, Copy, PartialEq, Eq)]
pub enum SocketError {
    LanUnavailable,
    WanUnavailable,
    /// The link-local interface has no scope identifier.
    MissingScopeId,
    /// The interface's address has no usable scope.
    Scope(ScopeError),
}

/// The plan for the link-local socket on an interface: it needs a scope identifier; it binds
/// the interface's scope at the protocol port and joins the link-local group on that link.
pub open spec fn spec_lan_plan(iface: NetIface, port: u16, group: Ipv6Addr) -> Result<
    SocketPlan,
    SocketError,
> {
    match iface.scope_id {
        None => Err(SocketError::MissingScopeId),
        Some(sid) => match spec_scope_of_iface(iface) {
            Err(e) => Err(SocketError::Scope(e)),
            Ok(s) => Ok(
                SocketPlan {
                    bind_addr: spec_socket_of(s, port),
                    multicast_group: group,
                    multicast_iface: sid,
                },
            ),
        },
    }
}

/// The plan for the global socket on an interface: it binds the interface's scope at the
/// protocol port and joins the global group on the default interface (index 0).
pub open spec fn spec_wan_plan(iface: NetIface, port: u16, group: Ipv6Addr) -> Result<
    SocketPlan,
    SocketError,
> {
    match spec_scope_of_iface(iface) {
        Err(e) => Err(SocketError::Scope(e)),
        Ok(s) => Ok(
            SocketPlan { bind_addr: spec_socket_of(s, port), multicast_group: group, multicast_iface: 0 },
        ),
    }
}

/// Opens the link-local and global protocol sockets.
pub struct ProtocolSocketFactory;

impl ProtocolSocketFactory {
    /// The plan for the global socket on `iface`.
    pub fn new_wan_sock(iface: &NetIface, env: &Env) -> (r: Result<SocketPlan, SocketError>)
        ensures
            r == spec_wan_plan(*iface, env.protocol_port, env.multicast_wan),
    {
        let scope = match Ipv6Scope::try_from_interface(iface) {
            Ok(s) => s,
            Err(e) => return Err(SocketError::Scope(e)),
        };
        let sock_addr = ScopeWithPort::new(scope, env.protocol_port).into_socket_addr();
        Ok(SocketPlan { bind_addr: sock_addr, multicast_group: env.multicast_wan, multicast_iface: 0 })
    }

    /// The plan for the link-local socket on `iface`.
    pub fn new_lan_sock(iface: &NetIface, env: &Env) -> (r: Result<SocketPlan, SocketError>)
        ensures
            r == spec_lan_plan(*iface, env.protocol_port, env.multicast_lan),
    {
        let scope_id = match iface.scope_id {
            Some(s) => s,
            None => return Err(SocketError::MissingScopeId),
        };
        let scope = match Ipv6Scope::try_from_interface(iface) {
            Ok(s) => s,
            Err(e) => return Err(SocketError::Scope(e)),
        };
        let sock_addr = ScopeWithPort::new(scope, env.protocol_port).into_socket_addr();
        Ok(
            SocketPlan {
                bind_addr: sock_addr,
                multicast_group: env.multicast_lan,
                multicast_iface: scope_id,
            },
        )
    }

    /// The plans for the chosen link-local and global interfaces, in that order; a missing
    /// interface gives `LanUnavailable` or `WanUnavailable`.
    pub fn new(lan: &Option<NetIface>, wan: &Option<NetIface>, env: &Env) -> (r: [Result<
        SocketPlan,
        SocketError,
    >; 2])
        ensures
            r@[0] == (match *lan {
                Some(i) => spec_lan_plan(i, env.protocol_port, env.multicast_lan),
                None => Err(SocketError::LanUnavailable),
            }),
            r@[1] == (match *wan {
                Some(i) => spec_wan_plan(i, env.protocol_port, env.multicast_wan),
                None => Err(SocketError::WanUnavailable),
            }),
    {
        let l = match lan {
            Some(i) => Self::new_lan_sock(i, env),
            None => Err(SocketError::LanUnavailable),
        };
        let w = match wan {
            Some(i) => Self::new_wan_sock(i, env),
            None => Err(SocketError::WanUnavailable),
        };
        [l, w]
    }
}

} // verus!
