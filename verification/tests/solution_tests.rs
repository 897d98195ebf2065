use peerlink::msg::msg_socket::MsgSocket;
use peerlink::addr_v6::ip::{Ipv6Addr, SocketAddrV6};
use peerlink::addr_v6::scope::{CastMode, Ipv6Scope, ScopeError};
use peerlink::discovery::{Discovery, DiscoveryError, Message};
use peerlink::env::env::{Adapter, Env as HostEnv};
use peerlink::addr_v6::ip::IpAddr;
use peerlink::msg::ctrl_msg::CtrlMsg;
use peerlink::msg::hello_msg::HelloMsg;
use peerlink::msg::msg::Msg;
use peerlink::msg::opt::{OptCode, OptMsg};
use peerlink::msg::opt_msg::OptMsg as StateOptMsg;
use peerlink::peer::cursor::Cursor;
use peerlink::peer::event::event::PeerEvent;
use peerlink::event::peer_event::PeerEvent as ExecEvent;
use peerlink::interceptor::msg_interceptor::MsgInterceptor;
use peerlink::peer::future_state::PeerFutureState;
use peerlink::peer::peer_state::{PeerState, PeerStateCode};
use peerlink::peer::peer_event_handler::{HandlingOutcome, PeerEventHandler as SolutionHandler};
use peerlink::peer::peer_event_solution::{PeerEventSolution, SolutionContext, SolutionEffect, SolutionError};
use peerlink::peer::solutions::hello_reply::HelloReply;
use peerlink::protocol::peer_ctrl_code::PeerCtrlCode;
use peerlink::solution::hello_reply::{hello_reply, HelloReply as CtrlHelloReply, HelloReplyError, HelloReplyJob};
use peerlink::solution::peer_event_executor::PeerEventExecutor;
use peerlink::solution::peer_event_solution::{CrossError, PeerEventSolution as CtrlSolution, ReplyContext, ReplyEffect};
use peerlink::utils::uid::Uid;

fn uid(s: &str) -> Uid {
    Uid::from(s.to_string())
}

fn ll(last: u16) -> Ipv6Addr {
    Ipv6Addr::new(0xfe80, 0, 0, 0, 0, 0, 0, last)
}

fn lan(last: u16, sid: u32) -> Ipv6Scope {
    Ipv6Scope::Lan { addr: CastMode::Unicast(ll(last)), scope_id: sid }
}

fn ctx(me: &str, lan: u32) -> SolutionContext {
    SolutionContext { local_host_id: uid(me), lan_scope_id: Some(lan), port: 5555 }
}

#[test]
fn hello_reply_answers_hellos() {
    let r = HelloReply::instance();
    assert_eq!(r.interest().bits(), 1);
    let fx = r.dispatch_solution(PeerEvent::Hello { host_id: uid("peer"), addr: lan(5, 1) }, &ctx("me", 9)).unwrap();
    assert_eq!(fx.len(), 3);
    match &fx[0] {
        SolutionEffect::Send(Msg::Connect { host_id }, to) => {
            assert_eq!(*host_id, uid("me"));
            assert_eq!(*to, lan(5, 9));
        }
        other => panic!("unexpected {:?}", other),
    }
    assert!(matches!(fx[1], SolutionEffect::Loopback(PeerEvent::Established)));
    assert!(matches!(&fx[2], SolutionEffect::Record(h, a) if *h == uid("peer") && *a == lan(5, 1)));
}

#[test]
fn hello_reply_conflicts_and_refuses() {
    let r = HelloReply::instance();
    let fx = r.dispatch_solution(PeerEvent::Hello { host_id: uid("me"), addr: lan(5, 1) }, &ctx("me", 9)).unwrap();
    assert_eq!(fx.len(), 1);
    assert!(matches!(fx[0], SolutionEffect::Send(Msg::Conflict, a) if a == lan(5, 1)));
    assert_eq!(r.dispatch_solution(PeerEvent::Established, &ctx("me", 9)).unwrap_err(), SolutionError::EventNotHandled);
    let doc = Ipv6Addr::new(0x2001, 0xdb8, 0, 0, 0, 0, 0, 1);
    let bad = Ipv6Scope::Wan(CastMode::Unicast(doc));
    let err = r.dispatch_solution(PeerEvent::Hello { host_id: uid("p"), addr: bad }, &ctx("me", 9)).unwrap_err();
    assert_eq!(err, SolutionError::Scope(ScopeError::InvalidUnicastScope(doc)));
}

#[test]
fn registry_and_handling() {
    let mut h = SolutionHandler::default();
    h.registry(HelloReply::instance());
    let out = h.handling(PeerEvent::Hello { host_id: uid("peer"), addr: lan(5, 1) }, &ctx("me", 9));
    match out {
        HandlingOutcome::Solved { effects, failure } => {
            assert!(failure.is_none());
            assert_eq!(effects.len(), 3);
        }
        HandlingOutcome::RegenerateHostId => panic!("unexpected"),
    }
    assert_eq!(h.peers_state.get(&uid("peer")).map(|r| *r.value()), Some(lan(5, 1)));
    h.registry(HelloReply::instance());
    let out = h.handling(PeerEvent::Hello { host_id: uid("peer"), addr: lan(5, 1) }, &ctx("me", 9));
    assert!(matches!(out, HandlingOutcome::Solved { ref effects, failure: None } if effects.len() == 6));
    let out = h.handling(PeerEvent::Connect { host_id: uid("peer"), addr: lan(5, 1) }, &ctx("me", 9));
    assert!(matches!(out, HandlingOutcome::Solved { ref effects, failure: None } if effects.is_empty()));
    let out = h.handling(PeerEvent::Established, &ctx("me", 9));
    assert!(matches!(out, HandlingOutcome::Solved { ref effects, failure: None } if effects.is_empty()));
    let out = h.handling(PeerEvent::Conflict { addr: lan(5, 1) }, &ctx("me", 9));
    assert!(matches!(out, HandlingOutcome::RegenerateHostId));
    assert_eq!(h.peers_state.len(), 1);
}

#[test]
fn hello_overwrites_a_stale_address() {
    let mut h = SolutionHandler::default();
    h.registry(HelloReply::instance());
    let old = Ipv6Scope::Wan(CastMode::Unicast(Ipv6Addr::new(0x2400, 0xcb00, 0, 0, 0, 0, 0, 1)));
    let new = Ipv6Scope::Wan(CastMode::Unicast(Ipv6Addr::new(0x2606, 0x4700, 0, 0, 0, 0, 0, 0x1111)));
    h.handling(PeerEvent::Hello { host_id: uid("b"), addr: old }, &ctx("me", 9));
    h.handling(PeerEvent::Hello { host_id: uid("c"), addr: lan(4, 1) }, &ctx("me", 9));
    let out = h.handling(PeerEvent::Hello { host_id: uid("b"), addr: new }, &ctx("me", 9));
    match out {
        HandlingOutcome::Solved { effects, failure: None } => match &effects[0] {
            SolutionEffect::Send(Msg::Connect { host_id }, to) => {
                assert_eq!(*host_id, uid("me"));
                assert_eq!(*to, new);
            }
            other => panic!("unexpected {:?}", other),
        },
        _ => panic!("unexpected"),
    }
    assert_eq!(h.peers_state.len(), 2);
    assert_eq!(h.peers_state.get(&uid("b")).map(|r| *r.value()), Some(new));
    assert_eq!(h.peers_state.get(&uid("c")).map(|r| *r.value()), Some(lan(4, 1)));
    h.handling(PeerEvent::Hello { host_id: uid("me"), addr: lan(4, 1) }, &ctx("me", 9));
    assert!(h.peers_state.get(&uid("me")).is_none());
}

fn ctx_without_lan(me: &str) -> SolutionContext {
    SolutionContext { local_host_id: uid(me), lan_scope_id: None, port: 5555 }
}

#[test]
fn handling_without_a_link_local_interface() {
    let mut h = SolutionHandler::with_hello_reply();
    let global = Ipv6Scope::Wan(CastMode::Unicast(Ipv6Addr::new(0x2606, 0x4700, 0, 0, 0, 0, 0, 0x1111)));
    let out = h.handling(PeerEvent::Hello { host_id: uid("b"), addr: global }, &ctx_without_lan("me"));
    match out {
        HandlingOutcome::Solved { effects, failure: None } => {
            assert_eq!(effects.len(), 3);
            assert!(matches!(&effects[0], SolutionEffect::Send(Msg::Connect { host_id }, to) if *host_id == uid("me") && *to == global));
        }
        _ => panic!("unexpected"),
    }
    assert_eq!(h.peers_state.get(&uid("b")).map(|r| *r.value()), Some(global));
    let out = h.handling(PeerEvent::Hello { host_id: uid("me"), addr: lan(5, 1) }, &ctx_without_lan("me"));
    match out {
        HandlingOutcome::Solved { effects, failure: None } => {
            assert_eq!(effects.len(), 1);
            assert!(matches!(effects[0], SolutionEffect::Send(Msg::Conflict, a) if a == lan(5, 1)));
        }
        _ => panic!("unexpected"),
    }
    let out = h.handling(PeerEvent::Connect { host_id: uid("c"), addr: lan(5, 1) }, &ctx_without_lan("me"));
    assert!(matches!(out, HandlingOutcome::Solved { ref effects, failure: None } if effects.is_empty()));
    let out = h.handling(PeerEvent::Established, &ctx_without_lan("me"));
    assert!(matches!(out, HandlingOutcome::Solved { ref effects, failure: None } if effects.is_empty()));
    let out = h.handling(PeerEvent::Conflict { addr: lan(5, 1) }, &ctx_without_lan("me"));
    assert!(matches!(out, HandlingOutcome::RegenerateHostId));
    assert_eq!(h.peers_state.len(), 1);
}

#[test]
fn executor_with_hello_reply() {
    let mut ex = PeerEventExecutor::with_hello_reply();
    let fx = ex.listening(ExecEvent::Hello { host_id: uid("p"), addr: lan(3, 2) }, &reply_ctx());
    check_reply(&fx, "p", lan(3, 2));
}

#[test]
fn refusal_texts() {
    assert_eq!(SolutionError::EventNotHandled.message(), "hello replay solution can not handle this event");
    assert_eq!(SolutionError::Scope(ScopeError::MissingScope).message(), "missing scope.");
    assert_eq!(ScopeError::NotIpv6Interface.message(), "The interface is not an IPv6-enabled interface.");
    let err = HelloReply::instance().dispatch_solution(PeerEvent::Established, &ctx("me", 9)).unwrap_err();
    assert_eq!(err.message(), "hello replay solution can not handle this event");
}

#[test]
fn own_messages_are_filtered() {
    let me = uid("me");
    assert!(!MsgInterceptor::filtering(&Msg::Hello { host_id: uid("me"), addr: lan(1, 1) }, &me));
    assert!(MsgInterceptor::filtering(&Msg::Hello { host_id: uid("p"), addr: lan(1, 1) }, &me));
    assert!(!MsgInterceptor::filtering(&Msg::Connect { host_id: uid("me") }, &me));
    assert!(MsgInterceptor::filtering(&Msg::Connect { host_id: uid("p") }, &me));
    assert!(MsgInterceptor::filtering(&Msg::Conflict, &me));
}

fn reply_ctx() -> ReplyContext {
    ReplyContext { local_host_id: uid("me"), local_link: lan(1, 2), port: 5555 }
}

fn check_reply(fx: &[ReplyEffect], peer: &str, from: Ipv6Scope) {
    assert_eq!(fx.len(), 3);
    match &fx[0] {
        ReplyEffect::SendCtrl(m, to) => {
            assert_eq!(m.ctrl_code, 2);
            assert_eq!(m.version, 0);
            assert_eq!(m.host_id, uid("me"));
            assert_eq!(m.addr, lan(1, 2));
            assert_eq!(*to, SocketAddrV6 { ip: ll(3), port: 5555, flowinfo: 0, scope_id: 2 });
        }
        other => panic!("unexpected {:?}", other),
    }
    assert!(matches!(&fx[1], ReplyEffect::Established(h, a) if *h == uid(peer) && *a == from));
    assert!(matches!(&fx[2], ReplyEffect::Record(h, a) if *h == uid(peer) && *a == from));
}

#[test]
fn ctrl_hello_reply() {
    let r = hello_reply();
    assert_eq!(r.interest(), 1);
    assert_eq!(CtrlHelloReply::new().interest(), PeerCtrlCode::hello().bits());
    assert_eq!(
        r.dispatch_solution(ExecEvent::Unreachable(uid("p")), &reply_ctx()).unwrap_err(),
        CrossError::HelloReply(HelloReplyError::EventNotMatch)
    );
    let fx = r.dispatch_solution(ExecEvent::Hello { host_id: uid("p"), addr: lan(3, 2) }, &reply_ctx()).unwrap();
    check_reply(&fx, "p", lan(3, 2));
    let job = HelloReplyJob { host_id: uid("q"), addr: lan(3, 2) };
    check_reply(&job.run(&uid("me"), lan(1, 2), 5555), "q", lan(3, 2));
}

#[test]
fn executor_answers_hellos_and_records_peers() {
    let mut ex = PeerEventExecutor::new();
    let none = ex.listening(ExecEvent::Hello { host_id: uid("p"), addr: lan(3, 2) }, &reply_ctx());
    assert!(none.is_empty());
    assert!(!ex.contains_peer(&uid("p")));
    ex.registry(hello_reply());
    let fx = ex.listening(ExecEvent::Hello { host_id: uid("p"), addr: lan(3, 2) }, &reply_ctx());
    check_reply(&fx, "p", lan(3, 2));
    assert!(ex.contains_peer(&uid("p")));
    assert!(!ex.contains_peer(&uid("q")));
    assert!(ex.listening(ExecEvent::Connected { host_id: uid("q"), addr: lan(3, 2) }, &reply_ctx()).is_empty());
    assert!(ex.listening(ExecEvent::Established { host_id: uid("q"), addr: lan(3, 2) }, &reply_ctx()).is_empty());
    assert!(ex.listening(ExecEvent::Transferring(uid("q")), &reply_ctx()).is_empty());
    assert!(ex.listening(ExecEvent::Unreachable(uid("p")), &reply_ctx()).is_empty());
    assert_eq!(ex.peers.get(&uid("p")).map(|r| *r.value()), Some(lan(3, 2)));
    assert!(!ex.contains_peer(&uid("q")));
    assert!(ex.contains_peer(&uid("p")));
}

#[test]
fn executor_subscribes_twice() {
    let mut ex = PeerEventExecutor::new();
    ex.registry(hello_reply());
    ex.registry(hello_reply());
    let fx = ex.listening(ExecEvent::Hello { host_id: uid("p"), addr: lan(3, 2) }, &reply_ctx());
    assert_eq!(fx.len(), 6);
    check_reply(&fx[..3], "p", lan(3, 2));
    check_reply(&fx[3..], "p", lan(3, 2));
    assert!(ex.contains_peer(&uid("p")));
}

#[test]
fn codes() {
    assert_eq!(PeerCtrlCode::from_bits(0b1_1111).map(|c| c.bits()), Some(31));
    assert!(PeerCtrlCode::from_bits(0b10_0000).is_none());
    assert_eq!(PeerCtrlCode::unreachable().bits(), 16);
    assert_eq!(PeerCtrlCode::transferring().bits(), 8);
    assert_eq!(PeerCtrlCode::establish().bits(), 4);
    assert!(OptCode::from_bits(16).is_none());
    assert_eq!(OptCode::from_bits(15).map(|c| c.bits()), Some(15));
    assert!(PeerStateCode::from_bits(4).is_none());
    assert_eq!(PeerStateCode::from_bits(3).map(|c| c.bits()), Some(3));
}

#[test]
fn option_messages() {
    let m = OptMsg::new(4, uid("a"));
    assert_eq!((m.version, m.opt_code), (0, 4));
    assert_eq!(OptMsg::gen_msg_by_state(&PeerFutureState::Connect(lan(1, 1)), &uid("h")).opt_code, 1);
    assert_eq!(OptMsg::gen_msg_by_state(&PeerFutureState::Establish(lan(1, 1)), &uid("h")).opt_code, 2);
    assert_eq!(OptMsg::gen_msg_by_state(&PeerFutureState::Dispose(lan(1, 1)), &uid("h")).opt_code, 4);
    let d = OptMsg::gen_msg_by_state(&PeerFutureState::Disconnect(lan(1, 1)), &uid("h"));
    assert_eq!(d.opt_code, 8);
    assert_eq!(d.host_id, uid("h"));
    assert_eq!(d.clone().host_id, uid("h"));
    assert_eq!(StateOptMsg::gen_msg_by_state(&PeerState::Connect(lan(1, 1)), &uid("h")).opt_code, 1);
    assert_eq!(StateOptMsg::gen_msg_by_state(&PeerState::Establish(lan(1, 1)), &uid("h")).opt_code, 2);
    assert_eq!(StateOptMsg::new(9, uid("z")).opt_code, 9);
    let c = CtrlMsg::new(2, uid("c"), lan(2, 2));
    assert_eq!((c.version, c.ctrl_code, c.addr), (0, 2, lan(2, 2)));
}

fn host_env() -> HostEnv {
    HostEnv::from_adapters(&vec![
        Adapter { gateways: vec![IpAddr::V6(ll(1))], ip_addresses: vec![IpAddr::V6(ll(0x21))], ipv6_if_index: 3, ipv6_metric: 50 },
        Adapter { gateways: vec![IpAddr::V6(ll(1))], ip_addresses: vec![IpAddr::V6(ll(0x22)), IpAddr::V6(ll(0x23))], ipv6_if_index: 8, ipv6_metric: 5 },
    ])
}

#[test]
fn hello_message_from_host() {
    let env = host_env();
    let h = HelloMsg::new(&env);
    assert_eq!(h.version, 0);
    assert_eq!(h.host_id, env.host_id);
    assert_eq!(h.addr, lan(0x23, 8));
    let (u, s) = h.into_peer();
    assert_eq!(u, env.host_id);
    assert_eq!(s, PeerFutureState::Connect(lan(0x23, 8)));
}

#[test]
fn discovery_start_and_hello() {
    let env = host_env();
    let (d, sid) = Discovery::new(&env).unwrap();
    assert_eq!(sid, 8);
    assert_eq!(d.link_local_sockaddr(), SocketAddrV6 { ip: ll(0x23), port: 5555, flowinfo: 0, scope_id: 8 });
    let (h, to) = d.hello(&env.host_id, &env);
    assert_eq!(h.addr, lan(0x23, 8));
    assert_eq!(to, SocketAddrV6 { ip: env.multicast_local, port: 5555, flowinfo: 0, scope_id: 8 });
    let empty = HostEnv::from_adapters(&vec![]);
    assert_eq!(Discovery::new(&empty).unwrap_err(), DiscoveryError::RouteUnavailable);
}

#[test]
fn discovery_messages() {
    let me = uid("me");
    let hello = HelloMsg { halo: (), version: 0, host_id: uid("p"), addr: lan(7, 1) };
    let r = Discovery::on_message(Message::Hello(hello), SocketAddrV6 { ip: ll(7), port: 1, flowinfo: 0, scope_id: 1 }, &me);
    assert!(matches!(r, Some((ref u, PeerState::Connect(a))) if *u == uid("p") && a == lan(7, 1)));
    let own = HelloMsg { halo: (), version: 0, host_id: uid("me"), addr: lan(7, 1) };
    assert!(Discovery::on_message(Message::Hello(own), SocketAddrV6 { ip: ll(7), port: 1, flowinfo: 0, scope_id: 1 }, &me).is_none());
    let opt = StateOptMsg::new(1, uid("q"));
    let r = Discovery::on_message(Message::Opt(opt), SocketAddrV6 { ip: ll(9), port: 1, flowinfo: 0, scope_id: 4 }, &me);
    assert!(matches!(r, Some((ref u, PeerState::Establish(a))) if *u == uid("q") && a == lan(9, 4)));
    let est = StateOptMsg::new(2, uid("q"));
    assert!(Discovery::on_message(Message::Opt(est), SocketAddrV6 { ip: ll(9), port: 1, flowinfo: 0, scope_id: 4 }, &me).is_none());
}

#[test]
fn discovery_listen_fills_the_table() {
    let me = uid("me");
    let mut peers = dashmap::DashMap::new();
    let from = SocketAddrV6 { ip: ll(9), port: 1, flowinfo: 0, scope_id: 4 };
    let hello = HelloMsg { halo: (), version: 0, host_id: uid("p"), addr: lan(7, 1) };
    Discovery::listen(&mut peers, Message::Hello(hello), from, &me);
    assert_eq!(peers.get(&uid("p")).map(|r| *r.value()), Some(PeerState::Connect(lan(7, 1))));
    let own = HelloMsg { halo: (), version: 0, host_id: uid("me"), addr: lan(7, 1) };
    Discovery::listen(&mut peers, Message::Hello(own), from, &me);
    assert!(peers.get(&uid("me")).is_none());
    Discovery::listen(&mut peers, Message::Opt(StateOptMsg::new(1, uid("p"))), from, &me);
    assert_eq!(peers.get(&uid("p")).map(|r| *r.value()), Some(PeerState::Establish(lan(9, 4))));
    Discovery::listen(&mut peers, Message::Opt(StateOptMsg::new(2, uid("q"))), from, &me);
    assert!(peers.get(&uid("q")).is_none());
    assert_eq!(peers.len(), 1);
}

#[test]
fn discovery_select_writes_back_into_the_table() {
    let table = dashmap::DashMap::new();
    table.insert(uid("a"), PeerFutureState::Connect(lan(4, 2)));
    let mut c = Cursor::new(table);
    let (k, m) = Discovery::select_next(&mut c, &uid("me"), 5555);
    assert_eq!(k, uid("a"));
    let (m, to) = m.unwrap();
    assert_eq!(m.opt_code, 1);
    assert_eq!(to, SocketAddrV6 { ip: ll(4), port: 5555, flowinfo: 0, scope_id: 2 });
    let (k, plan) = c.get_next_record();
    assert_eq!(k, uid("a"));
    assert_eq!(plan, PeerFutureState::Establish(lan(4, 2)));
    let (_, m) = Discovery::select_next(&mut c, &uid("me"), 5555);
    assert!(m.is_none());
}

#[test]
fn discovery_select() {
    let mut record = PeerFutureState::Connect(lan(4, 2));
    let (m, to) = Discovery::select(&mut record, &uid("me"), 5555).unwrap();
    assert_eq!(m.opt_code, 1);
    assert_eq!(m.host_id, uid("me"));
    assert_eq!(to, SocketAddrV6 { ip: ll(4), port: 5555, flowinfo: 0, scope_id: 2 });
    assert_eq!(record, PeerFutureState::Establish(lan(4, 2)));
    assert!(Discovery::select(&mut record, &uid("me"), 5555).is_none());
    assert_eq!(record, PeerFutureState::Establish(lan(4, 2)));
}

#[test]
fn cursor_visits_each_record_in_turn() {
    let table = dashmap::DashMap::new();
    table.insert(uid("a"), PeerFutureState::Connect(lan(1, 1)));
    table.insert(uid("b"), PeerFutureState::Establish(lan(2, 1)));
    let plan_of = |k: &Uid| if *k == uid("a") { PeerFutureState::Connect(lan(1, 1)) } else { PeerFutureState::Establish(lan(2, 1)) };
    let mut c = Cursor::new(table);
    let (k0, p0) = c.get_next_record();
    let (k1, p1) = c.get_next_record();
    assert_ne!(k0, k1);
    assert!((k0 == uid("a") && k1 == uid("b")) || (k0 == uid("b") && k1 == uid("a")));
    assert_eq!(p0, plan_of(&k0));
    assert_eq!(p1, plan_of(&k1));
    let (k2, p2) = c.get_next_record();
    assert!(k2 == uid("a") || k2 == uid("b"));
    assert_eq!(p2, plan_of(&k2));
}

#[test]
fn discovery_socket_on_best_link() {
    let env = host_env();
    let s = MsgSocket::new(&env).unwrap();
    assert_eq!(s.link_local_sockaddr, SocketAddrV6 { ip: ll(0x23), port: 5555, flowinfo: 0, scope_id: 8 });
    assert_eq!(s.join, Some((env.multicast_local, 8)));
    let empty = HostEnv::from_adapters(&vec![]);
    assert_eq!(MsgSocket::new(&empty).unwrap_err(), peerlink::env::env::EnvError::RouteUnavailable);
}
