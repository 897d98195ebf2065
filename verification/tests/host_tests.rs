use peerlink::addr_v6::ip::{IpAddr, Ipv4Addr, Ipv6Addr, SocketAddr, SocketAddrV6};
use peerlink::addr_v6::scope::{CastMode, Ipv6Scope, ScopeError};
use peerlink::env::env::{Adapter, Env as HostEnv, EnvError};
use peerlink::msg::msg::Msg;
use peerlink::msg::protocol_socket::ProtocolSocket;
use peerlink::msg::socket::{ProtocolSocketFactory, SocketError, SocketPlan};
use peerlink::msg::splitter::{MsgSplitter, SinkSide};
use peerlink::peer::repeating_hello::{repeating_hello, HelloError};
use peerlink::utils::env::Env;
use peerlink::utils::net_iface::NetworkInterfaceView;
use peerlink::utils::nic::{get_prefer, NetIface, NicView};
use peerlink::utils::uid::Uid;

fn v6(s: [u16; 8]) -> Ipv6Addr {
    Ipv6Addr::new(s[0], s[1], s[2], s[3], s[4], s[5], s[6], s[7])
}

fn iface(name: &str, addr: IpAddr, scope_id: Option<u32>) -> NetIface {
    NetIface { name: name.to_string(), address: addr, scope_id }
}

fn ll() -> Ipv6Addr {
    v6([0xfe80, 0, 0, 0, 0, 0, 0, 0x11])
}

fn global() -> Ipv6Addr {
    v6([0x2400, 0xcb00, 0, 0, 0, 0, 0, 0x11])
}

#[test]
fn prefers_named_interfaces() {
    let list = vec![
        iface("lo", IpAddr::V6(v6([0, 0, 0, 0, 0, 0, 0, 1])), Some(1)),
        iface("docker0", IpAddr::V6(ll()), Some(3)),
        iface("eth0", IpAddr::V4(Ipv4Addr { octets: [10, 0, 0, 2] }), None),
        iface("eth0", IpAddr::V6(ll()), Some(2)),
        iface("wlan0", IpAddr::V6(global()), None),
        iface("WLAN1", IpAddr::V6(global()), None),
    ];
    let up = Some(list);
    let lan = get_prefer(&up, false).expect("link-local interface");
    assert_eq!(lan.name, "eth0");
    assert_eq!(lan.scope_id, Some(2));
    let wan = get_prefer(&up, true).expect("global interface");
    assert_eq!(wan.name, "wlan0");
    assert!(get_prefer(&None, false).is_none());
    let view = NicView::from_up_list(&up);
    assert_eq!(view.cached_interface[0].as_ref().map(|i| i.name.clone()), Some("eth0".to_string()));
    assert_eq!(view.cached_interface[1].as_ref().map(|i| i.name.clone()), Some("wlan0".to_string()));
}

#[test]
fn vethernet_only_in_one_pattern() {
    let up = Some(vec![iface("vEthernet (WSL)", IpAddr::V6(ll()), Some(5))]);
    assert!(get_prefer(&up, false).is_some());
    assert!(NetworkInterfaceView::get_prefer(&up, false).is_none());
    let up = Some(vec![iface("enp3s0", IpAddr::V6(ll()), Some(5))]);
    assert!(NetworkInterfaceView::get_prefer(&up, false).is_some());
    let mut view = NetworkInterfaceView::from_up_list(&up);
    assert!(view.get().0.is_some());
    assert!(view.get().1.is_none());
    view.set(None, None);
    assert!(view.get().0.is_none());
}

#[test]
fn fresh_identifiers() {
    let mut env = Env::new();
    let first = env.host_id.as_string().clone();
    assert_eq!(first.chars().count(), 21);
    assert!(first.chars().all(|c| c.is_ascii_alphanumeric() || c == '_' || c == '-'));
    assert_eq!(env.protocol_port, 5555);
    assert_eq!(env.protocol_version, 0);
    assert_eq!(env.multicast_lan, v6([0xff12, 0, 0, 0, 0, 0, 0, 1]));
    assert_eq!(env.multicast_wan, v6([0xff1e, 0, 0, 0, 0, 0, 0, 1]));
    env.regen_host_id();
    let second = env.host_id.as_string().clone();
    assert_eq!(second.chars().count(), 21);
    assert_ne!(first, second);
}

fn adapter(gw6: bool, ips: Vec<IpAddr>, index: u32, metric: u32) -> Adapter {
    let gateways = if gw6 { vec![IpAddr::V6(v6([0xfe80, 0, 0, 0, 0, 0, 0, 1]))] } else { vec![IpAddr::V4(Ipv4Addr { octets: [10, 0, 0, 1] })] };
    Adapter { gateways, ip_addresses: ips, ipv6_if_index: index, ipv6_metric: metric }
}

#[test]
fn adapter_table_and_best_link() {
    let adapters = vec![
        adapter(true, vec![IpAddr::V6(ll()), IpAddr::V4(Ipv4Addr { octets: [10, 0, 0, 2] })], 7, 10),
        adapter(false, vec![IpAddr::V6(ll())], 2, 1),
        adapter(true, vec![IpAddr::V6(global()), IpAddr::V6(ll()), IpAddr::V6(v6([0x2001, 0xdb8, 0, 0, 0, 0, 0, 1]))], 4, 50),
        adapter(true, vec![IpAddr::V6(v6([0, 0, 0, 0, 0, 0, 0, 1]))], 9, 1),
    ];
    let env = HostEnv::from_adapters(&adapters);
    assert_eq!(env.nics.len(), 2);
    assert_eq!(env.nics[0].0, 7);
    assert_eq!(env.nics[1].0, 4);
    assert_eq!(env.nics[1].1 .0, 50);
    assert_eq!(env.nics[1].1 .1.len(), 2);
    assert!(env.is_ipv6_route_available());
    // The adapter with the smallest metric (10, index 7) wins over the smaller index 4.
    assert_eq!(env.best_local_link(), Ok(Ipv6Scope::Lan { addr: CastMode::Unicast(ll()), scope_id: 7 }));
    assert_eq!(env.port, 5555);
}

#[test]
fn best_link_by_metric_first_on_tie() {
    let by_metric = HostEnv::from_adapters(&vec![
        adapter(true, vec![IpAddr::V6(ll())], 1, 10),
        adapter(true, vec![IpAddr::V6(ll())], 2, 5),
    ]);
    assert_eq!(by_metric.best_local_link(), Ok(Ipv6Scope::Lan { addr: CastMode::Unicast(ll()), scope_id: 2 }));
    let tie = HostEnv::from_adapters(&vec![
        adapter(true, vec![IpAddr::V6(ll())], 6, 5),
        adapter(true, vec![IpAddr::V6(ll())], 2, 5),
    ]);
    assert_eq!(tie.best_local_link(), Ok(Ipv6Scope::Lan { addr: CastMode::Unicast(ll()), scope_id: 6 }));
}

#[test]
fn later_adapter_replaces_same_index() {
    let adapters = vec![
        adapter(true, vec![IpAddr::V6(ll())], 3, 10),
        adapter(true, vec![IpAddr::V6(global())], 3, 20),
    ];
    let env = HostEnv::from_adapters(&adapters);
    assert_eq!(env.nics.len(), 1);
    assert_eq!(env.nics[0].1 .0, 20);
    assert_eq!(env.best_local_link(), Err(EnvError::BestMetricNicNotFound));
    let empty = HostEnv::from_adapters(&vec![]);
    assert!(!empty.is_ipv6_route_available());
    assert_eq!(empty.best_local_link(), Err(EnvError::RouteUnavailable));
}

#[test]
fn socket_plans() {
    let env = Env::new();
    let lan = Some(iface("eth0", IpAddr::V6(ll()), Some(2)));
    let wan = Some(iface("eth0", IpAddr::V6(global()), None));
    let [l, w] = ProtocolSocketFactory::new(&lan, &wan, &env);
    assert_eq!(
        l,
        Ok(SocketPlan {
            bind_addr: SocketAddrV6 { ip: ll(), port: 5555, flowinfo: 0, scope_id: 2 },
            multicast_group: env.multicast_lan,
            multicast_iface: 2,
        })
    );
    assert_eq!(
        w,
        Ok(SocketPlan {
            bind_addr: SocketAddrV6 { ip: global(), port: 5555, flowinfo: 0, scope_id: 0 },
            multicast_group: env.multicast_wan,
            multicast_iface: 0,
        })
    );
    let [l, w] = ProtocolSocketFactory::new(&None, &None, &env);
    assert_eq!(l, Err(SocketError::LanUnavailable));
    assert_eq!(w, Err(SocketError::WanUnavailable));
    let no_scope = iface("eth0", IpAddr::V6(ll()), None);
    assert_eq!(ProtocolSocketFactory::new_lan_sock(&no_scope, &env), Err(SocketError::MissingScopeId));
    let v4 = iface("eth0", IpAddr::V4(Ipv4Addr { octets: [1, 2, 3, 4] }), None);
    assert_eq!(ProtocolSocketFactory::new_wan_sock(&v4, &env), Err(SocketError::Scope(ScopeError::NotIpv6Interface)));
}

#[test]
fn protocol_socket_plan() {
    let env = Env::new();
    let lan = Some(iface("eth0", IpAddr::V6(ll()), Some(6)));
    let plan = ProtocolSocket::init(&lan, &env).unwrap();
    assert_eq!(plan.bind_addr, SocketAddrV6 { ip: ll(), port: 5555, flowinfo: 0, scope_id: 6 });
    assert_eq!(plan.multicast_iface, 6);
    assert_eq!(ProtocolSocket::init(&None, &env), Err(SocketError::LanUnavailable));
    let dest = Ipv6Scope::Lan { addr: CastMode::Unicast(ll()), scope_id: 6 };
    assert_eq!(ProtocolSocket::outbound_addr(dest, &env).port, 5555);
}

#[test]
fn routes_and_inbound() {
    let lan = Ipv6Scope::Lan { addr: CastMode::Unicast(ll()), scope_id: 2 };
    let wan = Ipv6Scope::Wan(CastMode::Unicast(global()));
    assert_eq!(
        MsgSplitter::route(lan, true, false, 5555),
        Some((SinkSide::Lan, SocketAddrV6 { ip: ll(), port: 5555, flowinfo: 0, scope_id: 2 }))
    );
    assert_eq!(MsgSplitter::route(lan, false, true, 5555), None);
    assert_eq!(MsgSplitter::route(wan, true, true, 1).map(|r| r.0), Some(SinkSide::Wan));
    assert_eq!(MsgSplitter::route(wan, true, false, 1), None);
    let from = SocketAddr::V6(SocketAddrV6 { ip: ll(), port: 5555, flowinfo: 0, scope_id: 2 });
    let p = MsgSplitter::inbound_parcel(Msg::Conflict, from).unwrap();
    assert_eq!(p.1, lan);
    let v4 = SocketAddr::V4 { ip: Ipv4Addr { octets: [1, 2, 3, 4] }, port: 1 };
    assert!(MsgSplitter::inbound_parcel(Msg::Conflict, v4).is_none());
    let doc = SocketAddr::V6(SocketAddrV6 { ip: v6([0x2001, 0xdb8, 0, 0, 0, 0, 0, 1]), port: 1, flowinfo: 0, scope_id: 0 });
    assert!(ProtocolSocket::inbound(Msg::Conflict, doc).is_none());
}

#[test]
fn hello_announcement() {
    let env = Env::new();
    let lan = Some(iface("eth0", IpAddr::V6(ll()), Some(3)));
    let (msg, dest) = repeating_hello(&lan, &env).unwrap();
    match msg {
        Msg::Hello { host_id, addr } => {
            assert_eq!(host_id, env.host_id);
            assert_eq!(addr, Ipv6Scope::Lan { addr: CastMode::Unicast(ll()), scope_id: 3 });
        }
        other => panic!("unexpected {:?}", other),
    }
    assert_eq!(dest, Ipv6Scope::Lan { addr: CastMode::Multicast(v6([0xff12, 0, 0, 0, 0, 0, 0, 1])), scope_id: 3 });
    assert_eq!(repeating_hello(&None, &env).unwrap_err(), HelloError::NoLanInterface);
    let _ = Uid::from("unused".to_string());
}

#[test]
fn routed_parcel_comes_back_from_its_destination() {
    for dest in [
        Ipv6Scope::Lan { addr: CastMode::Unicast(ll()), scope_id: 2 },
        Ipv6Scope::Lan { addr: CastMode::Multicast(v6([0xff12, 0, 0, 0, 0, 0, 0, 1])), scope_id: 7 },
        Ipv6Scope::Wan(CastMode::Unicast(global())),
        Ipv6Scope::Wan(CastMode::Multicast(v6([0xff0e, 0, 0, 0, 0, 0, 0, 1]))),
    ] {
        let (_, sa) = MsgSplitter::route(dest, true, true, 5555).unwrap();
        let (_, back) = MsgSplitter::inbound_parcel(Msg::Conflict, SocketAddr::V6(sa)).unwrap();
        assert_eq!(back, dest);
    }
}
