//! The discovery socket on the host's best link-local address.
use crate::addr_v6::ip::{Ipv6Addr, SocketAddrV6};
use crate::addr_v6::scope::{spec_socket_of, Ipv6Scope, ScopeWithPort};
use crate::env::env::{spec_best_local_link, Env, EnvError};
use vstd::prelude::*;

verus! {

/// How to open the discovery socket: the address to bind, and the multicast group to join
/// with the link to join it on (for a link-local address).
#[derive(Debug, Clone, Copy, PartialEq, Eq)]
pub struct MsgSocket {
    pub link_local_sockaddr: SocketAddrV6,
    pub join: Option<(Ipv6Addr, u32)>,
}

impl MsgSocket {
    /// The socket for the host's best link-local address at its port, joining the
    /// link-local group on that link.
    pub fn new(env: &Env) -> (r: Result<MsgSocket, EnvError>)
        ensures
            match (r, spec_best_local_link(env.nics@)) {
                (Ok(m), Ok(s)) => m.link_local_sockaddr == spec_socket_of(s, env.port) && m.join
                    == (match s {
                    Ipv6Scope::Lan { scope_id, .. } => Some((env.multicast_local, scope_id)),
                    Ipv6Scope::Wan(_) => None,
                }),
                (Err(e), Err(f)) => e == f,
                _ => false,
            },
    {
        let bll = match env.best_local_link() {
            Ok(s) => s,
            Err(e) => return Err(e),
        };
        let sock_addr = ScopeWithPort::new(bll, env.port).into_socket_addr();
        let join = match bll {
            Ipv6Scope::Lan { scope_id, .. } => Some((env.multicast_local, scope_id)),
            Ipv6Scope::Wan(_) => None,
        };
        Ok(MsgSocket { link_local_sockaddr: sock_addr, join })
    }
}

} // verus!
