//! Discovery over the link-local multicast group: where to listen, what to announce, and
//! what each received message does to the table of peers.
use crate::addr_v6::ip::SocketAddrV6;
use crate::addr_v6::scope::{
    lemma_socket_roundtrip, scope_well_formed, spec_scope_of_socket, spec_socket_of, Ipv6Scope,
    ScopeError, ScopeWithPort,
};
use crate::env::env::{
    find_last_lan, is_min_metric_index, last_lan, lemma_last_lan_is_lan, lemma_min_metric_exists,
    min_metric_index, Env, NicEntry,
};
use crate::msg::hello_msg::HelloMsg;
use crate::msg::opt::{spec_code_of, OptMsg};
use crate::msg::opt_msg::OptMsg as StateOptMsg;
use crate::peer::cursor::{snapshot_of_table, Cursor};
use crate::peer::future_state::PeerFutureState;
use crate::peer::peer_state::{PeerState, PeerStateCode};
use crate::utils::uid::Uid;
use dashmap::DashMap;
use vstd::prelude::*;

verus! {

/// Why discovery cannot start.
#[derive(Debug, Clone, Copy, PartialEq, Eq)]
pub enum DiscoveryError {
    BestMetricNicNotFound,
    LocalLinkNotFound,
    RouteUnavailable,
}

/// A message of the discovery exchange.
#[derive(Debug)]
pub enum Message {
    Hello(HelloMsg),
    Opt(StateOptMsg),
}

/// The discovery endpoint: the link-local socket address it listens on.
#[derive(Debug)]
pub struct Discovery {
    link_local_sockaddr: SocketAddrV6,
}

impl View for Discovery {
    type V = SocketAddrV6;

    closed spec fn view(&self) -> SocketAddrV6 {
        self.link_local_sockaddr
    }
}

/// The peers discovery has heard of, with where their sessions stand.
pub type PeerStates = DashMap<Uid, PeerState>;

/// What the table of peers holds: each identifier's text, with the session state.
pub uninterp spec fn peer_states_contents(t: DashMap<Uid, PeerState>) -> Map<Seq<char>, PeerState>;

/// `DashMap::insert`: afterwards the identifier's text maps to the state. Identifiers are
/// compared by their text, as `Uid`'s `Eq` and `Hash` do.
#[verifier::external_body]
fn peer_states_insert(t: &mut PeerStates, key: Uid, value: PeerState)
    ensures
        peer_states_contents(*final(t)) == peer_states_contents(*old(t)).insert(key@, value),
{
    let _ = t.insert(key, value);
}

/// Where discovery listens, and the link whose multicast group it joins: the adapter with
/// the smallest metric (the first such), at its last link-local address, on the given port.
pub open spec fn spec_discovery_start(nics: Seq<NicEntry>, port: u16) -> Result<
    (SocketAddrV6, u32),
    DiscoveryError,
> {
    if nics.len() == 0 {
        Err(DiscoveryError::RouteUnavailable)
    } else {
        let b = choose|b: int| is_min_metric_index(nics, b);
        match last_lan(nics[b].1.1@) {
            Some(s) => Ok((spec_socket_of(s, port), nics[b].0)),
            None => Err(DiscoveryError::BestMetricNicNotFound),
        }
    }
}

/// What a received message does: a hello from another host makes it a peer to connect to;
/// a hello of this host's own identifier does nothing; an option message with the connecting
/// code makes its sender an established peer at the address it came from; any other known
/// code does nothing.
pub open spec fn spec_on_message_hello(host: Seq<char>, addr: Ipv6Scope, local: Seq<char>) -> Option<
    (Seq<char>, PeerState),
> {
    if host == local {
        None
    } else {
        Some((host, PeerState::Connect(addr)))
    }
}

impl Discovery {
    /// The endpoint for this host, with the interface index of the link whose group it
    /// joins.
    pub fn new(env: &Env) -> (r: Result<(Discovery, u32), DiscoveryError>)
        ensures
            match (r, spec_discovery_start(env.nics@, env.port)) {
                (Ok((d, sid)), Ok((sa, s))) => d@ == sa && sid == s,
                (Err(e), Err(f)) => e == f,
                _ => false,
            },
    {
        if !env.is_ipv6_route_available() {
            return Err(DiscoveryError::RouteUnavailable);
        }
        let b = min_metric_index(&env.nics);
        proof {
            let c = choose|c: int| is_min_metric_index(env.nics@, c);
            assert(c == b as int) by {
                if c < b as int {
                    assert(env.nics@[b as int].1.0 < env.nics@[c].1.0);
                } else if (b as int) < c {
                    assert(env.nics@[c].1.0 < env.nics@[b as int].1.0);
                }
            }
        }
        let scope_id = env.nics[b].0;
        let host = match find_last_lan(&env.nics[b].1.1) {
            Some(s) => s,
            None => return Err(DiscoveryError::BestMetricNicNotFound),
        };
        let sockaddr_local_link = ScopeWithPort::new(host, env.port).into_socket_addr();
        Ok((Discovery { link_local_sockaddr: sockaddr_local_link }, scope_id))
    }

    /// The socket address the endpoint listens on.
    pub fn link_local_sockaddr(&self) -> (r: SocketAddrV6)
        ensures
            r == self@,
    {
        self.link_local_sockaddr
    }

    /// The hello to multicast, and where: the link-local group at the protocol port on the
    /// link the endpoint listens on. The endpoint's own address must have a scope.
    pub fn hello(&self, host_id: &Uid, env: &Env) -> (r: (HelloMsg, SocketAddrV6))
        requires
            spec_scope_of_socket(self@) is Ok,
        ensures
            r.0.version == 0,
            r.0.host_id@ == host_id@,
            Ok::<Ipv6Scope, ScopeError>(r.0.addr) == spec_scope_of_socket(self@),
            r.1 == (SocketAddrV6 {
                ip: env.multicast_local,
                port: env.port,
                flowinfo: 0,
                scope_id: self@.scope_id,
            }),
    {
        let addr = Ipv6Scope::try_from_socket_addr(&self.link_local_sockaddr).unwrap();
        let h = HelloMsg { halo: (), version: 0, host_id: host_id.clone(), addr };
        let dest = SocketAddrV6::new(env.multicast_local, env.port, 0, self.link_local_sockaddr.scope_id);
        (h, dest)
    }

    /// The peer a received message records, if any: see `spec_on_message_hello` for hellos;
    /// an option message with the connecting code records its sender as established at the
    /// address it came from, and any other code records nothing. The code must be one of the
    /// named ones, and the sender's address must have a scope.
    pub fn on_message(msg: Message, src: SocketAddrV6, local_host_id: &Uid) -> (r: Option<
        (Uid, PeerState),
    >)
        requires
            (msg matches Message::Opt(o) ==> o.opt_code & !0b0000_0011u8 == 0 && (o.opt_code
                == 0b0000_0001 ==> spec_scope_of_socket(src) is Ok)),
        ensures
            match msg {
                Message::Hello(h) => match (r, spec_on_message_hello(h.host_id@, h.addr, local_host_id@)) {
                    (Some((u, s)), Some((v, t))) => u@ == v && s == t,
                    (None, None) => true,
                    _ => false,
                },
                Message::Opt(o) => if o.opt_code == 0b0000_0001 {
                    (r matches Some((u, s)) && u@ == o.host_id@ && s is Establish && Ok::<
                        Ipv6Scope,
                        ScopeError,
                    >(s->Establish_0) == spec_scope_of_socket(src))
                } else {
                    r is None
                },
            },
    {
        match msg {
            Message::Hello(hello) => {
                let (uid, pfs) = hello.into_peer();
                if uid != *local_host_id {
                    let addr = match pfs {
                        PeerFutureState::Connect(a) => a,
                        PeerFutureState::Establish(a) => a,
                        PeerFutureState::Dispose(a) => a,
                        PeerFutureState::Disconnect(a) => a,
                    };
                    Some((uid, PeerState::Connect(addr)))
                } else {
                    None
                }
            },
            Message::Opt(o) => {
                let code = PeerStateCode::from_bits(o.opt_code).unwrap();
                if code.bits() == PeerStateCode::connecting().bits() {
                    let a = Ipv6Scope::try_from_socket_addr(&src).unwrap();
                    Some((o.host_id, PeerState::Establish(a)))
                } else {
                    None
                }
            },
        }
    }

    /// Records in the table the peer a received message names (see `on_message`): a hello
    /// from another host as a peer to connect to, at the address it announces; an option
    /// message with the connecting code as established, at the address it came from.
    pub fn listen(peers: &mut PeerStates, msg: Message, src: SocketAddrV6, local_host_id: &Uid)
        requires
            (msg matches Message::Opt(o) ==> o.opt_code & !0b0000_0011u8 == 0 && (o.opt_code
                == 0b0000_0001 ==> spec_scope_of_socket(src) is Ok)),
        ensures
            peer_states_contents(*final(peers)) == (match msg {
                Message::Hello(h) => if h.host_id@ != local_host_id@ {
                    peer_states_contents(*old(peers)).insert(h.host_id@, PeerState::Connect(h.addr))
                } else {
                    peer_states_contents(*old(peers))
                },
                Message::Opt(o) => if o.opt_code == 0b0000_0001 {
                    peer_states_contents(*old(peers)).insert(
                        o.host_id@,
                        PeerState::Establish(spec_scope_of_socket(src)->Ok_0),
                    )
                } else {
                    peer_states_contents(*old(peers))
                },
            }),
    {
        match Self::on_message(msg, src, local_host_id) {
            Some((uid, state)) => peer_states_insert(peers, uid, state),
            None => {},
        }
    }

    /// The stateless step for the record of a planned peer: a peer to connect to is sent the
    /// connecting option message at its address and the protocol port, and its record
    /// becomes established; an established peer is left as it is. Disposing and
    /// disconnecting are not handled yet.
    pub fn select(record: &mut PeerFutureState, host_id: &Uid, port: u16) -> (r: Option<
        (OptMsg, SocketAddrV6),
    >)
        requires
            *old(record) is Connect || *old(record) is Establish,
        ensures
            match *old(record) {
                PeerFutureState::Connect(addr) => *final(record) == PeerFutureState::Establish(addr)
                    && (r matches Some((m, to)) && m.opt_code == spec_code_of(*old(record))
                    && m.version == 0 && m.host_id@ == host_id@ && to == spec_socket_of(addr, port)),
                _ => *final(record) == *old(record) && r is None,
            },
    {
        let state = *record;
        match state {
            PeerFutureState::Connect(addr) => {
                let m = OptMsg::gen_msg_by_state(&state, host_id);
                let to = ScopeWithPort::new(addr, port).into_socket_addr();
                *record = PeerFutureState::Establish(addr);
                Some((m, to))
            },
            _ => None,
        }
    }

    /// The stateless step on the record the cursor is at, written back into its table as
    /// the original's mutable record is: see `select` for the step. Every plan in the
    /// table must be one of connecting or established.
    pub fn select_next(cursor: &mut Cursor, host_id: &Uid, port: u16) -> (r: (
        Uid,
        Option<(OptMsg, SocketAddrV6)>,
    ))
        requires
            snapshot_of_table(old(cursor)@),
            old(cursor)@.index >= old(cursor)@.keys.len() ==> old(cursor)@.peers.dom().len() > 0,
            forall|k: Seq<char>| #[trigger]
                old(cursor)@.peers.dom().contains(k) ==> old(cursor)@.peers[k] is Connect
                    || old(cursor)@.peers[k] is Establish,
        ensures
            snapshot_of_table(final(cursor)@),
            old(cursor)@.index < old(cursor)@.keys.len() ==> final(cursor)@.keys == old(
                cursor,
            )@.keys && final(cursor)@.index == old(cursor)@.index + 1,
            old(cursor)@.index >= old(cursor)@.keys.len() ==> final(cursor)@.index == 1,
            r.0@ == final(cursor)@.keys[final(cursor)@.index - 1],
            final(cursor)@.keys[final(cursor)@.index - 1] == (if old(cursor)@.index < old(
                cursor,
            )@.keys.len() {
                old(cursor)@.keys[old(cursor)@.index as int]
            } else {
                final(cursor)@.keys[0]
            }),
            old(cursor)@.peers.dom().contains(r.0@),
            match old(cursor)@.peers[r.0@] {
                PeerFutureState::Connect(addr) => final(cursor)@.peers == old(cursor)@.peers.insert(
                    r.0@,
                    PeerFutureState::Establish(addr),
                ) && (r.1 matches Some((m, to)) && m.opt_code == 0b0000_0001 && m.version == 0
                    && m.host_id@ == host_id@ && to == spec_socket_of(addr, port)),
                _ => final(cursor)@.peers == old(cursor)@.peers && r.1 is None,
            },
    {
        let (key, plan) = cursor.get_next_record();
        let mut plan = plan;
        let ghost before = plan;
        proof {
            assert(cursor@.peers.dom().contains(key@));
        }
        let out = Self::select(&mut plan, host_id, port);
        cursor.set_record(key.clone(), plan);
        proof {
            if before is Establish {
                assert(cursor@.peers =~= old(cursor)@.peers);
            }
        }
        (key, out)
    }

}

/// The endpoint's own address always has a scope when the adapter table holds only
/// well-formed scopes, so announcing never fails.
pub proof fn lemma_start_address_has_scope(nics: Seq<NicEntry>, port: u16)
    requires
        forall|i: int, j: int|
            0 <= i < nics.len() && 0 <= j < nics[i].1.1@.len() ==> scope_well_formed(
                #[trigger] nics[i].1.1@[j],
            ),
    ensures
        spec_discovery_start(nics, port) matches Ok((sa, _)) ==> spec_scope_of_socket(sa) is Ok,
{
    if nics.len() > 0 {
        lemma_min_metric_exists(nics);
        let b = choose|b: int| is_min_metric_index(nics, b);
        if let Some(s) = last_lan(nics[b].1.1@) {
            lemma_last_lan_is_lan(nics[b].1.1@);
            let j = choose|j: int| 0 <= j < nics[b].1.1@.len() && nics[b].1.1@[j] == s;
            assert(scope_well_formed(nics[b].1.1@[j]));
            lemma_socket_roundtrip(s, port);
        }
    }
}

} // verus!
