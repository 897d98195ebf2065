use peerlink::addr_v6::ip::{IpAddr, Ipv4Addr, Ipv6Addr, Ipv6MulticastScope, SocketAddrV6};
use peerlink::addr_v6::scope::{CastMode, Ipv6Scope, ScopeError, ScopeWithPort};
use peerlink::addr_v6::scope_id::ScopeId;
use peerlink::utils::nic::NetIface;

fn a(s: [u16; 8]) -> Ipv6Addr {
    Ipv6Addr::new(s[0], s[1], s[2], s[3], s[4], s[5], s[6], s[7])
}

#[test]
fn classifies_special_addresses() {
    let unspecified = a([0; 8]);
    assert!(unspecified.is_unspecified());
    assert!(!unspecified.is_unicast_global());
    let loopback = a([0, 0, 0, 0, 0, 0, 0, 1]);
    assert!(loopback.is_loopback());
    assert!(!loopback.is_unicast_global());
    let link_local = a([0xfe80, 0, 0, 0, 0x1, 0x2, 0x3, 0x4]);
    assert!(link_local.is_unicast_link_local());
    assert!(link_local.is_unicast());
    assert!(!link_local.is_unicast_global());
    assert!(!a([0xfec0, 0, 0, 0, 0, 0, 0, 1]).is_unicast_link_local());
    assert!(a([0xfd00, 0, 0, 0, 0, 0, 0, 1]).is_unique_local());
    assert!(a([0x2001, 0x0db8, 0, 0, 0, 0, 0, 1]).is_documentation());
    assert!(a([0x3fff, 0x0abc, 0, 0, 0, 0, 0, 1]).is_documentation());
    assert!(!a([0x3fff, 0x1000, 0, 0, 0, 0, 0, 1]).is_documentation());
    assert!(a([0x2001, 0x0002, 0, 0, 0, 0, 0, 1]).is_benchmarking());
    assert!(a([0x2400, 0xcb00, 0, 0, 0, 0, 0, 1]).is_unicast_global());
    assert!(a([0xff02, 0, 0, 0, 0, 0, 0, 1]).is_multicast());
    assert!(!a([0xff02, 0, 0, 0, 0, 0, 0, 1]).is_unicast());
}

#[test]
fn reads_multicast_scopes() {
    assert_eq!(a([0xff01, 0, 0, 0, 0, 0, 0, 1]).multicast_scope(), Some(Ipv6MulticastScope::InterfaceLocal));
    assert_eq!(a([0xff02, 0, 0, 0, 0, 0, 0, 1]).multicast_scope(), Some(Ipv6MulticastScope::LinkLocal));
    assert_eq!(a([0xff03, 0, 0, 0, 0, 0, 0, 1]).multicast_scope(), Some(Ipv6MulticastScope::RealmLocal));
    assert_eq!(a([0xff04, 0, 0, 0, 0, 0, 0, 1]).multicast_scope(), Some(Ipv6MulticastScope::AdminLocal));
    assert_eq!(a([0xff05, 0, 0, 0, 0, 0, 0, 1]).multicast_scope(), Some(Ipv6MulticastScope::SiteLocal));
    assert_eq!(a([0xff08, 0, 0, 0, 0, 0, 0, 1]).multicast_scope(), Some(Ipv6MulticastScope::OrganizationLocal));
    assert_eq!(a([0xff0e, 0, 0, 0, 0, 0, 0, 1]).multicast_scope(), Some(Ipv6MulticastScope::Global));
    assert_eq!(a([0xff06, 0, 0, 0, 0, 0, 0, 1]).multicast_scope(), None);
    assert_eq!(a([0xfe80, 0, 0, 0, 0, 0, 0, 1]).multicast_scope(), None);
}

#[test]
fn cast_mode_follows_the_bits() {
    let u = a([0xfe80, 0, 0, 0, 0, 0, 0, 1]);
    let m = a([0xff12, 0, 0, 0, 0, 0, 0, 1]);
    assert_eq!(CastMode::try_from_addr(u), Ok(CastMode::Unicast(u)));
    assert_eq!(CastMode::try_from_addr(m), Ok(CastMode::Multicast(m)));
    assert_eq!(CastMode::Multicast(m).addr(), m);
}

#[test]
fn gives_scopes() {
    let ll = a([0xfe80, 0, 0, 0, 0, 0, 0, 7]);
    assert_eq!(
        Ipv6Scope::try_from_cast_mode(CastMode::Unicast(ll), Some(3)),
        Ok(Ipv6Scope::Lan { addr: CastMode::Unicast(ll), scope_id: 3 })
    );
    assert_eq!(Ipv6Scope::try_from_cast_mode(CastMode::Unicast(ll), None), Err(ScopeError::MissingScope));
    let g = a([0x2400, 0xcb00, 0, 0, 0, 0, 0, 1]);
    assert_eq!(Ipv6Scope::try_from_cast_mode(CastMode::Unicast(g), Some(9)), Ok(Ipv6Scope::Wan(CastMode::Unicast(g))));
    let doc = a([0x2001, 0x0db8, 0, 0, 0, 0, 0, 1]);
    assert_eq!(
        Ipv6Scope::try_from_cast_mode(CastMode::Unicast(doc), Some(1)),
        Err(ScopeError::InvalidUnicastScope(doc))
    );
    let mlan = a([0xff12, 0, 0, 0, 0, 0, 0, 1]);
    assert_eq!(
        Ipv6Scope::try_from_cast_mode(CastMode::Multicast(mlan), Some(2)),
        Ok(Ipv6Scope::Lan { addr: CastMode::Multicast(mlan), scope_id: 2 })
    );
    let mwan = a([0xff1e, 0, 0, 0, 0, 0, 0, 1]);
    assert_eq!(Ipv6Scope::try_from_cast_mode(CastMode::Multicast(mwan), None), Ok(Ipv6Scope::Wan(CastMode::Multicast(mwan))));
    let miface = a([0xff01, 0, 0, 0, 0, 0, 0, 1]);
    assert_eq!(
        Ipv6Scope::try_from_cast_mode(CastMode::Multicast(miface), Some(1)),
        Err(ScopeError::InvalidMulticastScope(miface))
    );
}

#[test]
fn scope_accessors() {
    let ll = a([0xfe80, 0, 0, 0, 0, 0, 0, 7]);
    let mut s = Ipv6Scope::Lan { addr: CastMode::Unicast(ll), scope_id: 3 };
    assert_eq!(s.scope_id(), Some(3));
    assert_eq!(s.addr(), ll);
    s.modify_scope_id(None);
    assert_eq!(s.scope_id(), Some(3));
    s.modify_scope_id(Some(8));
    assert_eq!(s, Ipv6Scope::Lan { addr: CastMode::Unicast(ll), scope_id: 8 });
    let g = a([0x2400, 0xcb00, 0, 0, 0, 0, 0, 1]);
    let mut w = Ipv6Scope::Wan(CastMode::Unicast(g));
    w.modify_scope_id(Some(8));
    assert_eq!(w, Ipv6Scope::Wan(CastMode::Unicast(g)));
    assert_eq!(w.scope_id(), None);
}

#[test]
fn socket_address_roundtrip() {
    let ll = a([0xfe80, 0, 0, 0, 0, 0, 0, 7]);
    let lan = Ipv6Scope::Lan { addr: CastMode::Unicast(ll), scope_id: 4 };
    let sa = ScopeWithPort::new(lan, 5555).into_socket_addr();
    assert_eq!(sa, SocketAddrV6 { ip: ll, port: 5555, flowinfo: 0, scope_id: 4 });
    assert_eq!(Ipv6Scope::try_from_socket_addr(&sa), Ok(lan));
    let g = a([0x2400, 0xcb00, 0, 0, 0, 0, 0, 1]);
    let wan = Ipv6Scope::Wan(CastMode::Unicast(g));
    let sa = ScopeWithPort::new(wan, 80).into_socket_addr();
    assert_eq!(sa.scope_id, 0);
    assert_eq!(Ipv6Scope::try_from_socket_addr(&sa), Ok(wan));
    let sa = SocketAddrV6::new(g, 80, 0, 17);
    assert_eq!(Ipv6Scope::try_from_socket_addr(&sa), Ok(wan));
}

#[test]
fn outbound_takes_the_interface_scope() {
    let ll = a([0xfe80, 0, 0, 0, 0, 0, 0, 7]);
    let lan = Ipv6Scope::Lan { addr: CastMode::Unicast(ll), scope_id: 4 };
    let out = ScopeWithPort::new_outbound(lan, 1, 12);
    assert_eq!(out.addr, Ipv6Scope::Lan { addr: CastMode::Unicast(ll), scope_id: 12 });
    let g = a([0x2400, 0xcb00, 0, 0, 0, 0, 0, 1]);
    let wan = Ipv6Scope::Wan(CastMode::Unicast(g));
    assert_eq!(ScopeWithPort::new_outbound(wan, 1, 12).addr, wan);
}

#[test]
fn scope_of_interface() {
    let ll = a([0xfe80, 0, 0, 0, 0, 0, 0, 7]);
    let i = NetIface { name: "eth0".to_string(), address: IpAddr::V6(ll), scope_id: Some(2) };
    assert_eq!(Ipv6Scope::try_from_interface(&i), Ok(Ipv6Scope::Lan { addr: CastMode::Unicast(ll), scope_id: 2 }));
    let v4 = NetIface { name: "eth0".to_string(), address: IpAddr::V4(Ipv4Addr { octets: [10, 0, 0, 1] }), scope_id: None };
    assert_eq!(Ipv6Scope::try_from_interface(&v4), Err(ScopeError::NotIpv6Interface));
}

#[test]
fn scope_id_roundtrip() {
    let s: ScopeId = 42u32.into();
    let back: u32 = s.into();
    assert_eq!(back, 42);
    assert_eq!(ScopeId::from(7), ScopeId::from(7));
}
