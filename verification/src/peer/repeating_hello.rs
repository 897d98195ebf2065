//! The hello this host keeps multicasting on its link.
use crate::addr_v6::ip::Ipv6Addr;
use crate::addr_v6::scope::{cast_mode_of, spec_scope_of_iface, CastMode, Ipv6Scope};
use crate::msg::msg::{Msg, MsgView, Parcel};
use crate::utils::env::Env;
use crate::utils::nic::NetIface;
use vstd::prelude::*;

verus! {

/// Why no hello can be sent.
#[derive(Debug, Clone, Copy, PartialEq, Eq)]
pub enum HelloError {
    /// No link-local interface was chosen.
    NoLanInterface,
}

/// The hello parcel for a link-local interface whose address is `src`: this host's
/// identifier and `src`, sent to the link-local group on the same link.
pub open spec fn spec_hello_parcel(src: Ipv6Scope, host: Seq<char>, group: Ipv6Addr) -> (
    MsgView,
    Ipv6Scope,
) {
    (
        MsgView::Hello { host_id: host, addr: src },
        Ipv6Scope::Lan { addr: cast_mode_of(group), scope_id: src->scope_id },
    )
}

/// The hello parcel announces this host at the interface's own address, and goes to the
/// link-local group address on the same link as that address.
pub proof fn lemma_hello_goes_to_group_on_link(src: Ipv6Scope, host: Seq<char>, group: Ipv6Addr)
    requires
        src is Lan,
    ensures
        ({
            let (m, dest) = spec_hello_parcel(src, host, group);
            &&& m == MsgView::Hello { host_id: host, addr: src }
            &&& dest matches Ipv6Scope::Lan { addr, scope_id } && crate::addr_v6::scope::cast_addr(
                addr,
            ) == group && Some(scope_id) == crate::addr_v6::scope::spec_scope_id(src)
        }),
{
}

/// The hello to repeat on the chosen link-local interface (every five seconds). Its address
/// must be a link-local one with a scope identifier.
pub fn repeating_hello(lan: &Option<NetIface>, env: &Env) -> (r: Result<Parcel, HelloError>)
    requires
        (*lan matches Some(i) ==> spec_scope_of_iface(i) matches Ok(s) && s is Lan),
    ensures
        match (*lan, r) {
            (None, Err(e)) => e == HelloError::NoLanInterface,
            (Some(i), Ok(p)) => (p.0@, p.1) == spec_hello_parcel(
                spec_scope_of_iface(i).unwrap(),
                env.host_id@,
                env.multicast_lan,
            ),
            _ => false,
        },
{
    let iface = match lan {
        Some(i) => i,
        None => return Err(HelloError::NoLanInterface),
    };
    let src = Ipv6Scope::try_from_interface(iface).unwrap();
    let group = CastMode::try_from_addr(env.multicast_lan).unwrap();
    let dest = Ipv6Scope::Lan { addr: group, scope_id: src.scope_id().unwrap() };
    Ok((Msg::Hello { host_id: env.host_id.clone(), addr: src }, dest))
}

} // verus!
