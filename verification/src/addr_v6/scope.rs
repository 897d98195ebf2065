use super::ip::{
    spec_is_multicast, spec_is_unicast_global, spec_is_unicast_link_local, spec_multicast_scope,
    IpAddr, Ipv6Addr, Ipv6MulticastScope, SocketAddrV6,
};
use crate::utils::nic::NetIface;
use vstd::prelude::*;

verus! {

/// An IPv6 address tagged with its transmission mode.
#[derive(Debug, Clone, Copy, PartialEq, Eq, Hash)]
pub enum CastMode {
    Unicast(Ipv6Addr),
    Multicast(Ipv6Addr),
}

/// An IPv6 address with its reach: `Lan` for link-local unicast (`fe80::/10`) and
/// link-local multicast addresses, which need a scope identifier; `Wan` for global
/// unicast addresses and multicast addresses of realm, admin, site, organization or
/// global scope.
#[derive(Debug, Clone, Copy, PartialEq, Eq, Hash)]
pub enum Ipv6Scope {
    Lan { addr: CastMode, scope_id: u32 },
    Wan(CastMode),
}

/// Why an address could not be given a scope.
#[derive(Debug, Clone, Copy, PartialEq, Eq)]
pub enum ScopeError {
    /// A link-local address came without a scope identifier.
    MissingScope,
    /// A unicast address that is neither link-local nor global.
    InvalidUnicastScope(Ipv6Addr),
    /// A multicast address whose scope is neither link-local nor wider than it.
    InvalidMulticastScope(Ipv6Addr),
    /// The interface carries no IPv6 address.
    NotIpv6Interface,
}

/// The text that reports a scope error.
pub open spec fn scope_error_text(e: ScopeError) -> Seq<char> {
    match e {
        ScopeError::MissingScope => "missing scope."@,
        ScopeError::InvalidUnicastScope(_) => "Invalid unicast address scope."@,
        ScopeError::InvalidMulticastScope(_) => "Multicast address has invalid scope."@,
        ScopeError::NotIpv6Interface => "The interface is not an IPv6-enabled interface."@,
    }
}

impl ScopeError {
    /// The text that reports the error; the address in question is left out of it.
    pub fn message(&self) -> (r: &'static str)
        ensures
            r@ == scope_error_text(*self),
    {
        match self {
            ScopeError::MissingScope => "missing scope.",
            ScopeError::InvalidUnicastScope(_) => "Invalid unicast address scope.",
            ScopeError::InvalidMulticastScope(_) => "Multicast address has invalid scope.",
            ScopeError::NotIpv6Interface => "The interface is not an IPv6-enabled interface.",
        }
    }
}

/// The address inside a cast mode.
pub open spec fn cast_addr(c: CastMode) -> Ipv6Addr {
    match c {
        CastMode::Unicast(a) => a,
        CastMode::Multicast(a) => a,
    }
}

/// The cast mode that an address has by its bits.
pub open spec fn cast_mode_of(a: Ipv6Addr) -> CastMode {
    if spec_is_multicast(a) {
        CastMode::Multicast(a)
    } else {
        CastMode::Unicast(a)
    }
}

/// The tag agrees with the address bits.
pub open spec fn cast_well_formed(c: CastMode) -> bool {
    c == cast_mode_of(cast_addr(c))
}

/// A link-local unicast address or a multicast address of link-local scope.
pub open spec fn is_lan_cast(c: CastMode) -> bool {
    match c {
        CastMode::Unicast(a) => spec_is_unicast_link_local(a),
        CastMode::Multicast(a) => spec_multicast_scope(a) == Some(Ipv6MulticastScope::LinkLocal),
    }
}

/// A global unicast address or a multicast address of a scope wider than the link.
pub open spec fn is_wan_cast(c: CastMode) -> bool {
    match c {
        CastMode::Unicast(a) => !spec_is_unicast_link_local(a) && spec_is_unicast_global(a),
        CastMode::Multicast(a) => match spec_multicast_scope(a) {
            Some(Ipv6MulticastScope::Global) => true,
            Some(Ipv6MulticastScope::OrganizationLocal) => true,
            Some(Ipv6MulticastScope::SiteLocal) => true,
            Some(Ipv6MulticastScope::AdminLocal) => true,
            Some(Ipv6MulticastScope::RealmLocal) => true,
            _ => false,
        },
    }
}

/// The scope given to a cast mode and an optional scope identifier.
pub open spec fn spec_classify(c: CastMode, scope_id: Option<u32>) -> Result<Ipv6Scope, ScopeError> {
    if is_lan_cast(c) {
        match scope_id {
            Some(s) => Ok(Ipv6Scope::Lan { addr: c, scope_id: s }),
            None => Err(ScopeError::MissingScope),
        }
    } else if is_wan_cast(c) {
        Ok(Ipv6Scope::Wan(c))
    } else {
        match c {
            CastMode::Unicast(a) => Err(ScopeError::InvalidUnicastScope(a)),
            CastMode::Multicast(a) => Err(ScopeError::InvalidMulticastScope(a)),
        }
    }
}

/// The scope of a socket address: its address tagged by its bits, with its scope identifier.
pub open spec fn spec_scope_of_socket(s: SocketAddrV6) -> Result<Ipv6Scope, ScopeError> {
    spec_classify(cast_mode_of(s.ip), Some(s.scope_id))
}

/// The address of a scope.
pub open spec fn scope_addr(s: Ipv6Scope) -> Ipv6Addr {
    match s {
        Ipv6Scope::Lan { addr, .. } => cast_addr(addr),
        Ipv6Scope::Wan(addr) => cast_addr(addr),
    }
}

/// The scope identifier of a `Lan` scope.
pub open spec fn spec_scope_id(s: Ipv6Scope) -> Option<u32> {
    match s {
        Ipv6Scope::Lan { scope_id, .. } => Some(scope_id),
        Ipv6Scope::Wan(_) => None,
    }
}

/// A scope that classification can produce.
pub open spec fn scope_well_formed(s: Ipv6Scope) -> bool {
    match s {
        Ipv6Scope::Lan { addr, .. } => cast_well_formed(addr) && is_lan_cast(addr),
        Ipv6Scope::Wan(addr) => cast_well_formed(addr) && is_wan_cast(addr),
    }
}

/// The socket address for a scope and a port: a `Lan` scope keeps its identifier,
/// a `Wan` scope gets identifier 0; the flow label is 0.
pub open spec fn spec_socket_of(s: Ipv6Scope, port: u16) -> SocketAddrV6 {
    match s {
        Ipv6Scope::Lan { addr, scope_id } => SocketAddrV6 {
            ip: cast_addr(addr),
            port,
            flowinfo: 0,
            scope_id,
        },
        Ipv6Scope::Wan(addr) => SocketAddrV6 { ip: cast_addr(addr), port, flowinfo: 0, scope_id: 0 },
    }
}

impl CastMode {
    /// Tags an address as unicast or multicast by its bits. Every address is one or the other,
    /// so this never fails.
    pub fn try_from_addr(val: Ipv6Addr) -> (r: Result<CastMode, ScopeError>)
        ensures
            r == Ok::<CastMode, ScopeError>(cast_mode_of(val)),
    {
        if val.is_unicast() {
            Ok(CastMode::Unicast(val))
        } else {
            Ok(CastMode::Multicast(val))
        }
    }

    /// The address inside.
    pub fn addr(self) -> (r: Ipv6Addr)
        ensures
            r == cast_addr(self),
    {
        match self {
            CastMode::Unicast(a) => a,
            CastMode::Multicast(a) => a,
        }
    }

    fn is_lan(&self) -> (r: bool)
        ensures
            r == is_lan_cast(*self),
    {
        match self {
            CastMode::Unicast(a) => a.is_unicast_link_local(),
            CastMode::Multicast(a) => match a.multicast_scope() {
                Some(Ipv6MulticastScope::LinkLocal) => true,
                _ => false,
            },
        }
    }

    fn is_wan(&self) -> (r: bool)
        ensures
            r == is_wan_cast(*self),
    {
        match self {
            CastMode::Unicast(a) => !a.is_unicast_link_local() && a.is_unicast_global(),
            CastMode::Multicast(a) => match a.multicast_scope() {
                Some(Ipv6MulticastScope::Global) => true,
                Some(Ipv6MulticastScope::OrganizationLocal) => true,
                Some(Ipv6MulticastScope::SiteLocal) => true,
                Some(Ipv6MulticastScope::AdminLocal) => true,
                Some(Ipv6MulticastScope::RealmLocal) => true,
                _ => false,
            },
        }
    }
}

impl Ipv6Scope {
    /// The scope identifier of a `Lan` scope, `None` for a `Wan` one.
    pub fn scope_id(&self) -> (r: Option<u32>)
        ensures
            r == spec_scope_id(*self),
    {
        match self {
            Ipv6Scope::Lan { scope_id, .. } => Some(*scope_id),
            Ipv6Scope::Wan(_) => None,
        }
    }

    /// Replaces the scope identifier of a `Lan` scope when one is given; anything else
    /// is left as it was.
    pub fn modify_scope_id(&mut self, scope_id: Option<u32>)
        ensures
            *final(self) == (match (*old(self), scope_id) {
                (Ipv6Scope::Lan { addr, .. }, Some(n)) => Ipv6Scope::Lan { addr, scope_id: n },
                (s, _) => s,
            }),
    {
        if let Some(new_scope_id) = scope_id {
            if let Ipv6Scope::Lan { addr, .. } = *self {
                *self = Ipv6Scope::Lan { addr, scope_id: new_scope_id };
            }
        }
    }

    /// Gives a cast mode its scope. Link-local addresses need a scope identifier;
    /// for wider addresses the identifier is dropped.
    pub fn try_from_cast_mode(addr: CastMode, scope_id: Option<u32>) -> (r: Result<
        Ipv6Scope,
        ScopeError,
    >)
        ensures
            r == spec_classify(addr, scope_id),
    {
        if addr.is_lan() {
            match scope_id {
                Some(s) => Ok(Ipv6Scope::Lan { addr, scope_id: s }),
                None => Err(ScopeError::MissingScope),
            }
        } else if addr.is_wan() {
            Ok(Ipv6Scope::Wan(addr))
        } else {
            match addr {
                CastMode::Unicast(a) => Err(ScopeError::InvalidUnicastScope(a)),
                CastMode::Multicast(a) => Err(ScopeError::InvalidMulticastScope(a)),
            }
        }
    }

    /// The scope of a socket address; its scope identifier is dropped for wide addresses.
    pub fn try_from_socket_addr(val: &SocketAddrV6) -> (r: Result<Ipv6Scope, ScopeError>)
        ensures
            r == spec_scope_of_socket(*val),
    {
        let addr = match CastMode::try_from_addr(val.ip) {
            Ok(c) => c,
            Err(e) => return Err(e),
        };
        Ipv6Scope::try_from_cast_mode(addr, Some(val.scope_id))
    }

    /// The bare address, without its scope identifier.
    pub fn addr(self) -> (r: Ipv6Addr)
        ensures
            r == scope_addr(self),
    {
        match self {
            Ipv6Scope::Lan { addr, .. } => addr.addr(),
            Ipv6Scope::Wan(addr) => addr.addr(),
        }
    }
}

/// The scope of an interface: its IPv6 address, tagged by its bits, with the interface's
/// scope identifier; an interface without an IPv6 address has none.
pub open spec fn spec_scope_of_iface(iface: NetIface) -> Result<Ipv6Scope, ScopeError> {
    match iface.address {
        IpAddr::V6(a) => spec_classify(cast_mode_of(a), iface.scope_id),
        IpAddr::V4(_) => Err(ScopeError::NotIpv6Interface),
    }
}

impl Ipv6Scope {
    /// The scope of an interface's address.
    pub fn try_from_interface(val: &NetIface) -> (r: Result<Ipv6Scope, ScopeError>)
        ensures
            r == spec_scope_of_iface(*val),
    {
        let addr = match val.address {
            IpAddr::V6(a) => a,
            IpAddr::V4(_) => return Err(ScopeError::NotIpv6Interface),
        };
        let c = match CastMode::try_from_addr(addr) {
            Ok(c) => c,
            Err(e) => return Err(e),
        };
        Ipv6Scope::try_from_cast_mode(c, val.scope_id)
    }
}

/// A scope together with a port, to be turned into a socket address.
#[derive(Debug, Clone, Copy, PartialEq, Eq)]
pub struct ScopeWithPort {
    pub addr: Ipv6Scope,
    pub port: u16,
}

impl ScopeWithPort {
    pub fn new(addr: Ipv6Scope, port: u16) -> (r: Self)
        ensures
            r == (ScopeWithPort { addr, port }),
    {
        Self { addr, port }
    }

    /// For an outgoing `Lan` destination, takes the scope identifier of the local link-local
    /// interface (`iface_scope_id`) in place of the one the address came with; a `Wan`
    /// destination is kept as it is.
    pub fn new_outbound(addr: Ipv6Scope, port: u16, iface_scope_id: u32) -> (r: Self)
        ensures
            r == (match addr {
                Ipv6Scope::Lan { addr: a, .. } => ScopeWithPort {
                    addr: Ipv6Scope::Lan { addr: a, scope_id: iface_scope_id },
                    port,
                },
                Ipv6Scope::Wan(_) => ScopeWithPort { addr, port },
            }),
    {
        match addr {
            Ipv6Scope::Lan { addr: a, .. } => Self::new(
                Ipv6Scope::Lan { addr: a, scope_id: iface_scope_id },
                port,
            ),
            Ipv6Scope::Wan(_) => Self::new(addr, port),
        }
    }

    /// The socket address: a `Lan` scope keeps its identifier, a `Wan` scope gets 0.
    pub fn into_socket_addr(self) -> (r: SocketAddrV6)
        ensures
            r == spec_socket_of(self.addr, self.port),
    {
        match self.addr {
            Ipv6Scope::Lan { addr, scope_id } => SocketAddrV6::new(
                addr.addr(),
                self.port,
                0,
                scope_id,
            ),
            Ipv6Scope::Wan(addr) => SocketAddrV6::new(addr.addr(), self.port, 0, 0),
        }
    }
}

/// Tagging an address and taking the address back out gives the address again;
/// the tag always agrees with the bits.
pub proof fn lemma_cast_mode_roundtrip(a: Ipv6Addr)
    ensures
        cast_addr(cast_mode_of(a)) == a,
        cast_well_formed(cast_mode_of(a)),
{
}

/// Every scope that classification produces from a well-formed cast mode is well formed,
/// and carries the same address.
pub proof fn lemma_classify_well_formed(c: CastMode, scope_id: Option<u32>)
    requires
        cast_well_formed(c),
    ensures
        spec_classify(c, scope_id) matches Ok(s) ==> scope_well_formed(s) && scope_addr(s)
            == cast_addr(c),
{
}

/// Wider-than-link addresses get a `Wan` scope whatever scope identifier comes with them,
/// and link-local ones keep the identifier they came with.
pub proof fn lemma_scope_id_only_for_lan(c: CastMode, s1: Option<u32>, s2: Option<u32>)
    ensures
        is_wan_cast(c) ==> spec_classify(c, s1) == spec_classify(c, s2),
        is_lan_cast(c) && s1 is Some ==> spec_classify(c, s1) == Ok::<Ipv6Scope, ScopeError>(
            Ipv6Scope::Lan { addr: c, scope_id: s1.unwrap() },
        ),
{
    assert(!(is_lan_cast(c) && is_wan_cast(c)));
}

/// A multicast address is classified by its scope field, the low four bits of its first
/// segment: link-local scope (2) needs a scope identifier and gets a `Lan` scope; realm-,
/// admin-, site-, organization-local and global scopes (3, 4, 5, 8, 14) get a `Wan` scope
/// whatever identifier comes with them; every other scope is refused.
pub proof fn lemma_multicast_classified_by_scope_field(a: Ipv6Addr, scope_id: Option<u32>)
    requires
        a.segments@[0] & 0xff00u16 == 0xff00u16,
    ensures
        ({
            let field = a.segments@[0] & 0x000fu16;
            let r = spec_classify(CastMode::Multicast(a), scope_id);
            &&& (field == 3 || field == 4 || field == 5 || field == 8 || field == 14) ==> r
                == Ok::<Ipv6Scope, ScopeError>(Ipv6Scope::Wan(CastMode::Multicast(a)))
            &&& field == 2 ==> r == (match scope_id {
                Some(id) => Ok::<Ipv6Scope, ScopeError>(
                    Ipv6Scope::Lan { addr: CastMode::Multicast(a), scope_id: id },
                ),
                None => Err(ScopeError::MissingScope),
            })
            &&& !(field == 2 || field == 3 || field == 4 || field == 5 || field == 8 || field
                == 14) ==> r == Err::<Ipv6Scope, ScopeError>(ScopeError::InvalidMulticastScope(a))
        }),
{
}

/// A unicast address is classified by its reach: a link-local one needs a scope identifier
/// and gets a `Lan` scope; a global one gets a `Wan` scope whatever identifier comes with
/// it; any other (loopback, unique-local, documentation, ...) is refused.
pub proof fn lemma_unicast_classified_by_reach(a: Ipv6Addr, scope_id: Option<u32>)
    ensures
        ({
            let r = spec_classify(CastMode::Unicast(a), scope_id);
            &&& spec_is_unicast_link_local(a) ==> r == (match scope_id {
                Some(id) => Ok::<Ipv6Scope, ScopeError>(
                    Ipv6Scope::Lan { addr: CastMode::Unicast(a), scope_id: id },
                ),
                None => Err(ScopeError::MissingScope),
            })
            &&& spec_is_unicast_global(a) ==> r == Ok::<Ipv6Scope, ScopeError>(
                Ipv6Scope::Wan(CastMode::Unicast(a)),
            )
            &&& !spec_is_unicast_link_local(a) && !spec_is_unicast_global(a) ==> r == Err::<
                Ipv6Scope,
                ScopeError,
            >(ScopeError::InvalidUnicastScope(a))
        }),
{
}

/// Multicast addresses of interface-local (loopback) scope never get a scope.
pub proof fn lemma_interface_local_multicast_refused(a: Ipv6Addr, scope_id: Option<u32>)
    requires
        spec_multicast_scope(a) == Some(Ipv6MulticastScope::InterfaceLocal),
    ensures
        spec_classify(CastMode::Multicast(a), scope_id) == Err::<Ipv6Scope, ScopeError>(
            ScopeError::InvalidMulticastScope(a),
        ),
{
}

/// Changing the scope identifier keeps the address and the well-formedness of a scope, and
/// a `Lan` scope then reports the new identifier.
pub proof fn lemma_modify_scope_id_keeps_address(s: Ipv6Scope, n: u32)
    ensures
        ({
            let t = match s {
                Ipv6Scope::Lan { addr, .. } => Ipv6Scope::Lan { addr, scope_id: n },
                _ => s,
            };
            &&& scope_addr(t) == scope_addr(s)
            &&& scope_well_formed(t) == scope_well_formed(s)
            &&& (s is Lan ==> spec_scope_id(t) == Some(n))
        }),
{
}

/// A well-formed scope turned into a socket address and read back is the same scope.
pub proof fn lemma_socket_roundtrip(s: Ipv6Scope, port: u16)
    requires
        scope_well_formed(s),
    ensures
        spec_scope_of_socket(spec_socket_of(s, port)) == Ok::<Ipv6Scope, ScopeError>(s),
{
}

/// The scope read from any socket address, turned back into a socket address with the
/// same port, keeps the address, and keeps the scope identifier when the scope is `Lan`.
pub proof fn lemma_socket_scope_keeps_address(sa: SocketAddrV6)
    ensures
        spec_scope_of_socket(sa) matches Ok(s) ==> {
            let back = spec_socket_of(s, sa.port);
            &&& back.ip == sa.ip
            &&& back.port == sa.port
            &&& (s is Lan ==> back.scope_id == sa.scope_id)
        },
{
}

} // verus!
