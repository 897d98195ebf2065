use peerlink::addr_v6::ip::Ipv6Addr;
use peerlink::addr_v6::scope::{CastMode, Ipv6Scope};
use peerlink::msg::event_adapter::MsgEventAdapter;
use peerlink::msg::msg::Msg;
use peerlink::peer::event::event::PeerEvent;
use peerlink::peer::event::flags::PeerEventFlags;
use peerlink::peer::event::handler::{HandlerEffect, PeerEventHandler};
use peerlink::peer::event::state_table::StateEntry;
use peerlink::utils::uid::Uid;

fn uid(s: &str) -> Uid {
    Uid::from(s.to_string())
}

fn lan(last: u16, scope_id: u32) -> Ipv6Scope {
    Ipv6Scope::Lan { addr: CastMode::Unicast(Ipv6Addr::new(0xfe80, 0, 0, 0, 0, 0, 0, last)), scope_id }
}

#[test]
fn hello_from_peer_pairs() {
    let mut h = PeerEventHandler::default();
    let me = uid("me");
    let fx = h.handle_event(&me, PeerEvent::Hello { host_id: uid("peer"), addr: lan(5, 2) });
    assert_eq!(fx.len(), 2);
    match &fx[0] {
        HandlerEffect::Send(Msg::Connect { host_id }, to) => {
            assert_eq!(*host_id, me);
            assert_eq!(*to, lan(5, 2));
        }
        other => panic!("unexpected {:?}", other),
    }
    assert!(matches!(fx[1], HandlerEffect::Loopback(PeerEvent::Established)));
    let entry = h.peers_state.get(&uid("peer")).expect("recorded");
    assert_eq!(entry.addr(), lan(5, 2));
    assert_eq!(entry.state, PeerEventFlags::established());
}

#[test]
fn own_hello_conflicts() {
    let mut h = PeerEventHandler::default();
    let me = uid("me");
    let fx = h.handle_event(&me, PeerEvent::Hello { host_id: uid("me"), addr: lan(5, 2) });
    assert_eq!(fx.len(), 1);
    assert!(matches!(fx[0], HandlerEffect::Send(Msg::Conflict, a) if a == lan(5, 2)));
    assert!(h.peers_state.is_empty());
}

#[test]
fn connect_records_and_is_idempotent() {
    let mut h = PeerEventHandler::default();
    let me = uid("me");
    let fx = h.handle_event(&me, PeerEvent::Connect { host_id: uid("p"), addr: lan(9, 1) });
    assert_eq!(fx.len(), 1);
    assert!(matches!(fx[0], HandlerEffect::Loopback(PeerEvent::Established)));
    h.handle_event(&me, PeerEvent::Connect { host_id: uid("p"), addr: lan(9, 1) });
    assert_eq!(h.peers_state.len(), 1);
    h.handle_event(&me, PeerEvent::Connect { host_id: uid("p"), addr: lan(10, 1) });
    assert_eq!(h.peers_state.len(), 1);
    assert_eq!(h.peers_state.get(&uid("p")).unwrap().addr(), lan(10, 1));
}

#[test]
fn conflict_and_established() {
    let mut h = PeerEventHandler::default();
    let me = uid("me");
    let fx = h.handle_event(&me, PeerEvent::Conflict { addr: lan(1, 1) });
    assert_eq!(fx.len(), 1);
    assert!(matches!(fx[0], HandlerEffect::RegenerateHostId));
    let fx = h.handle_event(&me, PeerEvent::Established);
    assert!(fx.is_empty());
    assert!(h.peers_state.is_empty());
}

#[test]
fn table_keeps_other_peers() {
    let mut h = PeerEventHandler::default();
    let me = uid("me");
    h.handle_event(&me, PeerEvent::Hello { host_id: uid("a"), addr: lan(1, 1) });
    h.handle_event(&me, PeerEvent::Connect { host_id: uid("b"), addr: lan(2, 1) });
    h.handle_event(&me, PeerEvent::Conflict { addr: lan(3, 1) });
    assert_eq!(h.peers_state.len(), 2);
    assert_eq!(h.peers_state.get(&uid("a")).unwrap().addr(), lan(1, 1));
    assert_eq!(h.peers_state.get(&uid("b")).unwrap().addr(), lan(2, 1));
}

#[test]
fn hello_is_rescoped_to_arrival_link() {
    let e = MsgEventAdapter::adapt((Msg::Hello { host_id: uid("x"), addr: lan(4, 1) }, lan(8, 6)));
    match e {
        PeerEvent::Hello { host_id, addr } => {
            assert_eq!(host_id, uid("x"));
            assert_eq!(addr, lan(4, 6));
        }
        other => panic!("unexpected {:?}", other),
    }
    let w = Ipv6Scope::Wan(CastMode::Unicast(Ipv6Addr::new(0x2400, 0xcb00, 0, 0, 0, 0, 0, 1)));
    let e = PeerEvent::from_parcel((Msg::Hello { host_id: uid("x"), addr: w }, lan(8, 6)));
    assert!(matches!(e, PeerEvent::Hello { addr, .. } if addr == w));
    let e = PeerEvent::from_parcel((Msg::Hello { host_id: uid("x"), addr: lan(4, 1) }, w));
    assert!(matches!(e, PeerEvent::Hello { addr, .. } if addr == lan(4, 1)));
}

#[test]
fn connect_and_conflict_take_the_sender() {
    let e = PeerEvent::from_parcel((Msg::Connect { host_id: uid("y") }, lan(3, 2)));
    assert!(matches!(e, PeerEvent::Connect { ref host_id, addr } if *host_id == uid("y") && addr == lan(3, 2)));
    let e = PeerEvent::from_parcel((Msg::Conflict, lan(3, 2)));
    assert!(matches!(e, PeerEvent::Conflict { addr } if addr == lan(3, 2)));
}

#[test]
fn event_flag_bits() {
    assert_eq!(PeerEvent::Hello { host_id: uid("a"), addr: lan(1, 1) }.flag_bits(), 1);
    assert_eq!(PeerEvent::Connect { host_id: uid("a"), addr: lan(1, 1) }.flag_bits(), 2);
    assert_eq!(PeerEvent::Conflict { addr: lan(1, 1) }.flag_bits(), 3);
    assert_eq!(PeerEvent::Established.flag_bits(), 4);
    assert_eq!(PeerEventFlags::from_bits(7).map(|f| f.bits()), Some(7));
    assert!(PeerEventFlags::from_bits(8).is_none());
    assert!(PeerEventFlags::conflict().contains(PeerEventFlags::hello()));
    assert!(!PeerEventFlags::hello().contains(PeerEventFlags::established()));
}

#[test]
fn state_entry_starts_without_key() {
    let e = StateEntry::new(lan(1, 1), PeerEventFlags::hello());
    assert_eq!(e.addr(), lan(1, 1));
    assert_eq!(e.state.bits(), 1);
}

#[test]
fn no_parcel_becomes_established() {
    for msg in [Msg::Hello { host_id: uid("a"), addr: lan(1, 1) }, Msg::Connect { host_id: uid("a") }, Msg::Conflict] {
        let e = PeerEvent::from_parcel((msg, lan(2, 2)));
        assert!(!matches!(e, PeerEvent::Established));
    }
}
