//! The event executor: solutions subscribe to kinds of peer events, and each event that
//! arrives is handed to the subscribers of its kind; what they answer is carried out here
//! as far as it concerns the peer table, and handed on otherwise.
use super::peer_event_solution::{
    as_subscriber, reply_effects_view, PeerEventSolution, ReplyContext, ReplyContextView, ReplyEffect,
    ReplyEffectView,
};
use super::hello_reply::{hello_reply, spec_reply_effects, the_hello_reply};
use crate::addr_v6::scope::Ipv6Scope;
use crate::peer::peer_table::{
    empty_peer_table, peer_table_contains, peer_table_contents, peer_table_new,
    peer_table_upsert, PeerStateTable,
};
use crate::event::peer_event::{PeerEvent, PeerEventView};
use crate::protocol::peer_ctrl_code::{ctrl_code_all_bits, PeerCtrlCode};
use crate::utils::uid::Uid;
use dashmap::DashMap;
use vstd::prelude::*;

verus! {

/// The subscribed solutions, by the control-code bit of the event kind they handle.
pub type ExecutorMapping = DashMap<u8, Vec<&'static dyn PeerEventSolution>>;

/// What the mapping holds: for each kind's bit, its solutions in the order they subscribed.
pub uninterp spec fn executor_mapping_contents(
    m: DashMap<u8, Vec<&'static dyn PeerEventSolution>>,
) -> Map<u8, Seq<&'static dyn PeerEventSolution>>;

/// A mapping with no kind.
pub open spec fn empty_executor_mapping() -> Map<u8, Seq<&'static dyn PeerEventSolution>> {
    Map::empty()
}

/// `DashMap::new`: an empty mapping.
#[verifier::external_body]
fn executor_mapping_new() -> (r: ExecutorMapping)
    ensures
        executor_mapping_contents(r) == empty_executor_mapping(),
{
    DashMap::new()
}

/// `DashMap::insert`: afterwards the key maps to the list.
#[verifier::external_body]
fn executor_mapping_insert(
    m: &mut ExecutorMapping,
    key: u8,
    list: Vec<&'static dyn PeerEventSolution>,
)
    ensures
        executor_mapping_contents(*final(m)) == executor_mapping_contents(*old(m)).insert(
            key,
            list@,
        ),
{
    let _ = m.insert(key, list);
}

/// Adds a solution at the end of a list.
fn push_subscriber(list: &mut Vec<&'static dyn PeerEventSolution>, s: &'static dyn PeerEventSolution)
    ensures
        final(list)@ == old(list)@.push(s),
{
    list.push(s);
}

/// The mapping with `s` added at the end of `key`'s list, when `key` is there.
pub open spec fn subscribe_if_present<S: PeerEventSolution>(
    m: Map<u8, Seq<&'static dyn PeerEventSolution>>,
    key: u8,
    s: &'static S,
) -> Map<u8, Seq<&'static dyn PeerEventSolution>> {
    if m.dom().contains(key) {
        m.insert(key, m[key].push(as_subscriber(s)))
    } else {
        m
    }
}

/// `DashMap::entry(key)` then `Entry::and_modify`, appending `s` to the list of a key that
/// is present; an absent key is left absent.
#[verifier::external_body]
fn executor_mapping_push_if_present<S: PeerEventSolution>(
    m: &mut ExecutorMapping,
    key: u8,
    s: &'static S,
)
    ensures
        executor_mapping_contents(*final(m)) == subscribe_if_present(
            executor_mapping_contents(*old(m)),
            key,
            s,
        ),
{
    m.entry(key).and_modify(|list| push_subscriber(list, s));
}

/// The solutions subscribed to a kind; none for a kind the mapping lacks.
pub open spec fn subscribers_of(m: Map<u8, Seq<&'static dyn PeerEventSolution>>, key: u8) -> Seq<
    &'static dyn PeerEventSolution,
> {
    if m.dom().contains(key) {
        m[key]
    } else {
        Seq::empty()
    }
}

/// `DashMap::get(key)`, and a copy of the list found (the references, in order); an empty
/// list for an absent key.
#[verifier::external_body]
fn executor_mapping_solutions(m: &ExecutorMapping, key: u8) -> (r: Vec<
    &'static dyn PeerEventSolution,
>)
    ensures
        r@ == subscribers_of(executor_mapping_contents(*m), key),
{
    match m.get(&key) {
        Some(entry) => entry.value().clone(),
        None => Vec::new(),
    }
}

/// Subscribing `s` with interest bits `bits`: it joins, in the order hello (1), connect
/// (2), establish (4), transferring (8), unreachable (16), the list of each kind whose bit
/// it names and that the mapping has.
pub open spec fn spec_subscribed<S: PeerEventSolution>(
    m: Map<u8, Seq<&'static dyn PeerEventSolution>>,
    bits: u8,
    s: &'static S,
) -> Map<u8, Seq<&'static dyn PeerEventSolution>> {
    let m1 = if bits & 1u8 != 0 { subscribe_if_present(m, 1u8, s) } else { m };
    let m2 = if bits & 2u8 != 0 { subscribe_if_present(m1, 2u8, s) } else { m1 };
    let m3 = if bits & 4u8 != 0 { subscribe_if_present(m2, 4u8, s) } else { m2 };
    let m4 = if bits & 8u8 != 0 { subscribe_if_present(m3, 8u8, s) } else { m3 };
    if bits & 16u8 != 0 { subscribe_if_present(m4, 16u8, s) } else { m4 }
}

/// Whether every one of the solutions accepts the event.
pub open spec fn all_accept(
    slns: Seq<&'static dyn PeerEventSolution>,
    event: PeerEventView,
    ctx: ReplyContextView,
) -> bool {
    forall|i: int| 0 <= i < slns.len() ==> (#[trigger] slns[i]).spec_dispatch(event, ctx) is Ok
}

/// The answers of the solutions, one after the other; one that refuses adds nothing.
pub open spec fn run_subscribers(
    slns: Seq<&'static dyn PeerEventSolution>,
    event: PeerEventView,
    ctx: ReplyContextView,
) -> Seq<ReplyEffectView>
    decreases slns.len(),
{
    if slns.len() == 0 {
        Seq::empty()
    } else {
        let before = run_subscribers(slns.drop_last(), event, ctx);
        match slns.last().spec_dispatch(event, ctx) {
            Ok(fx) => before + fx,
            Err(_) => before,
        }
    }
}

/// The peer table after the records among the effects, in order.
pub open spec fn apply_records(t: Map<Seq<char>, Ipv6Scope>, fx: Seq<ReplyEffectView>) -> Map<
    Seq<char>,
    Ipv6Scope,
>
    decreases fx.len(),
{
    if fx.len() == 0 {
        t
    } else {
        let before = apply_records(t, fx.drop_last());
        match fx.last() {
            ReplyEffectView::Record(h, a) => before.insert(h, a),
            _ => before,
        }
    }
}

/// Entering records never forgets a peer: every identifier known before is known after.
pub proof fn lemma_records_keep_peers(t: Map<Seq<char>, Ipv6Scope>, fx: Seq<ReplyEffectView>)
    ensures
        t.dom().subset_of(apply_records(t, fx).dom()),
    decreases fx.len(),
{
    if fx.len() > 0 {
        lemma_records_keep_peers(t, fx.drop_last());
    }
}

/// Handling an event never forgets a peer.
pub proof fn lemma_listening_keeps_peers(s: ExecutorView, event: PeerEventView, ctx: ReplyContextView)
    ensures
        s.peers.dom().subset_of(spec_listening(s, event, ctx).1.dom()),
{
    if event is Hello {
        lemma_records_keep_peers(s.peers, run_subscribers(subscribers_of(s.mapping, 1u8), event, ctx));
    }
}

/// Answering a hello records its sender where the hello came from, and nothing else.
pub proof fn lemma_hello_answer_records_sender(
    t: Map<Seq<char>, Ipv6Scope>,
    host_id: Seq<char>,
    addr: Ipv6Scope,
    ctx: ReplyContextView,
)
    ensures
        apply_records(
            t,
            spec_reply_effects(host_id, addr, ctx.local_host_id, ctx.local_link, ctx.port),
        ) == t.insert(host_id, addr),
{
    let fx = spec_reply_effects(host_id, addr, ctx.local_host_id, ctx.local_link, ctx.port);
    let f2 = fx.drop_last();
    let f1 = f2.drop_last();
    assert(f1.drop_last() =~= Seq::<ReplyEffectView>::empty());
    assert(apply_records(t, f1.drop_last()) == t);
    assert(f1.last() is SendCtrl);
    assert(apply_records(t, f1) == t);
    assert(f2.last() is Established);
    assert(apply_records(t, f2) == t);
    assert(fx.last() == ReplyEffectView::Record(host_id, addr));
}

/// The executor's state as the contracts see it.
pub struct ExecutorView {
    pub peers: Map<Seq<char>, Ipv6Scope>,
    pub mapping: Map<u8, Seq<&'static dyn PeerEventSolution>>,
}

/// The effects of handling an event, and the peer table after it: a hello goes to the
/// hello subscribers (bit 1), whose records are entered in the table; connected,
/// established, transferring and unreachable events change nothing yet.
pub open spec fn spec_listening(
    s: ExecutorView,
    event: PeerEventView,
    ctx: ReplyContextView,
) -> (Seq<ReplyEffectView>, Map<Seq<char>, Ipv6Scope>) {
    match event {
        PeerEventView::Hello { .. } => {
            let fx = run_subscribers(subscribers_of(s.mapping, 1u8), event, ctx);
            (fx, apply_records(s.peers, fx))
        },
        _ => (Seq::empty(), s.peers),
    }
}

/// Hands peer events to the solutions subscribed to their kinds, and keeps the table of
/// known peers.
pub struct PeerEventExecutor {
    pub peers: PeerStateTable,
    solution_mapping: ExecutorMapping,
}

impl View for PeerEventExecutor {
    type V = ExecutorView;

    closed spec fn view(&self) -> ExecutorView {
        ExecutorView {
            peers: peer_table_contents(self.peers),
            mapping: executor_mapping_contents(self.solution_mapping),
        }
    }
}

/// The mapping of a new executor: each of the five kinds, with no subscriber.
pub open spec fn initial_executor_mapping() -> Map<u8, Seq<&'static dyn PeerEventSolution>> {
    empty_executor_mapping().insert(1u8, Seq::empty()).insert(2u8, Seq::empty()).insert(
        4u8,
        Seq::empty(),
    ).insert(8u8, Seq::empty()).insert(16u8, Seq::empty())
}

impl PeerEventExecutor {
    /// An executor that knows no peer, with the five kinds and no subscriber.
    pub fn new() -> (r: Self)
        ensures
            r@.peers == empty_peer_table(),
            r@.mapping == initial_executor_mapping(),
    {
        let mut m = executor_mapping_new();
        executor_mapping_insert(&mut m, PeerCtrlCode::hello().bits(), Vec::new());
        executor_mapping_insert(&mut m, PeerCtrlCode::connect().bits(), Vec::new());
        executor_mapping_insert(&mut m, PeerCtrlCode::establish().bits(), Vec::new());
        executor_mapping_insert(&mut m, PeerCtrlCode::transferring().bits(), Vec::new());
        executor_mapping_insert(&mut m, PeerCtrlCode::unreachable().bits(), Vec::new());
        PeerEventExecutor { peers: peer_table_new(), solution_mapping: m }
    }

    /// Subscribes a solution to each kind its interest names. Every bit of the interest
    /// must be a named control code.
    pub fn registry<S: PeerEventSolution>(&mut self, sln: &'static S)
        requires
            sln.spec_interest() & !ctrl_code_all_bits() == 0,
        ensures
            final(self)@.peers == old(self)@.peers,
            final(self)@.mapping == spec_subscribed(old(self)@.mapping, sln.spec_interest(), sln),
    {
        let code = PeerCtrlCode::from_bits(sln.interest()).unwrap();
        let bits = code.bits();
        if bits & PeerCtrlCode::hello().bits() != 0 {
            executor_mapping_push_if_present(&mut self.solution_mapping, 1, sln);
        }
        if bits & PeerCtrlCode::connect().bits() != 0 {
            executor_mapping_push_if_present(&mut self.solution_mapping, 2, sln);
        }
        if bits & PeerCtrlCode::establish().bits() != 0 {
            executor_mapping_push_if_present(&mut self.solution_mapping, 4, sln);
        }
        if bits & PeerCtrlCode::transferring().bits() != 0 {
            executor_mapping_push_if_present(&mut self.solution_mapping, 8, sln);
        }
        if bits & PeerCtrlCode::unreachable().bits() != 0 {
            executor_mapping_push_if_present(&mut self.solution_mapping, 16, sln);
        }
    }

    /// An executor that knows no peer, whose hello kind lists the hello reply.
    pub fn with_hello_reply() -> (r: Self)
        ensures
            r@.peers == empty_peer_table(),
            r@.mapping.dom() == set![1u8, 2u8, 4u8, 8u8, 16u8],
            r@.mapping[1u8] == Seq::<&'static dyn PeerEventSolution>::empty().push(
                as_subscriber(&the_hello_reply()),
            ),
    {
        let mut ex = Self::new();
        let sln = hello_reply();
        proof {
            assert(1u8 & !0b0001_1111u8 == 0u8) by (bit_vector);
            assert(1u8 & 1u8 != 0u8 && 1u8 & 2u8 == 0u8 && 1u8 & 4u8 == 0u8 && 1u8 & 8u8 == 0u8
                && 1u8 & 16u8 == 0u8) by (bit_vector);
        }
        let ghost m0 = ex@.mapping;
        ex.registry(sln);
        proof {
            assert(ex@.mapping == spec_subscribed(m0, 1u8, sln));
            assert(m0.dom().contains(1u8));
            let v = m0[1u8].push(as_subscriber(sln));
            assert(ex@.mapping == m0.insert(1u8, v));
            vstd::map::axiom_map_insert_domain(m0, 1u8, v);
            vstd::map::axiom_map_insert_same(m0, 1u8, v);
            assert(ex@.mapping.dom() =~= set![1u8, 2u8, 4u8, 8u8, 16u8]);
        }
        ex
    }

    /// Whether a peer with this identifier is known.
    pub fn contains_peer(&self, host_id: &Uid) -> (r: bool)
        ensures
            r == self@.peers.dom().contains(host_id@),
    {
        peer_table_contains(&self.peers, host_id)
    }

    /// Handles one event: a hello is handed to each hello subscriber in turn, each of which
    /// must accept it; the peers they record enter the table, and all their effects come
    /// back, for the sending and the feeding back. Every other event is taken and changes
    /// nothing yet.
    pub fn listening(&mut self, event: PeerEvent, ctx: &ReplyContext) -> (r: Vec<ReplyEffect>)
        requires
            event@ is Hello ==> all_accept(subscribers_of(old(self)@.mapping, 1u8), event@, ctx@),
        ensures
            (reply_effects_view(r@), final(self)@.peers) == spec_listening(old(self)@, event@, ctx@),
            final(self)@.mapping == old(self)@.mapping,
    {
        let mut effects: Vec<ReplyEffect> = Vec::new();
        match event {
            PeerEvent::Hello { .. } => {},
            _ => return effects,
        }
        let ghost peers0 = self@.peers;
        let slns = executor_mapping_solutions(&self.solution_mapping, PeerCtrlCode::hello().bits());
        let mut i: usize = 0;
        while i < slns.len()
            invariant
                i <= slns.len(),
                event@ is Hello,
                slns@ == subscribers_of(self@.mapping, 1u8),
                all_accept(slns@, event@, ctx@),
                self@.mapping == old(self)@.mapping,
                peers0 == old(self)@.peers,
                reply_effects_view(effects@) == run_subscribers(slns@.take(i as int), event@, ctx@),
                self@.peers == apply_records(peers0, reply_effects_view(effects@)),
            decreases slns.len() - i,
        {
            proof {
                assert(slns@.take(i + 1).drop_last() =~= slns@.take(i as int));
                assert(slns@.take(i + 1).last() == slns@[i as int]);
            }
            let fx = slns[i].dispatch_solution(event.clone(), ctx).unwrap();
            let mut j: usize = 0;
            while j < fx.len()
                invariant
                    j <= fx.len(),
                    i < slns.len(),
                    event@ is Hello,
                    slns@ == subscribers_of(self@.mapping, 1u8),
                    all_accept(slns@, event@, ctx@),
                    self@.mapping == old(self)@.mapping,
                    peers0 == old(self)@.peers,
                    reply_effects_view(effects@) == run_subscribers(slns@.take(i as int), event@, ctx@),
                    self@.peers == apply_records(
                        peers0,
                        reply_effects_view(effects@) + reply_effects_view(fx@).take(j as int),
                    ),
                decreases fx.len() - j,
            {
                let ghost done = reply_effects_view(effects@) + reply_effects_view(fx@).take(j as int);
                proof {
                    assert((reply_effects_view(effects@) + reply_effects_view(fx@).take(j + 1)).drop_last()
                        =~= done);
                    assert((reply_effects_view(effects@) + reply_effects_view(fx@).take(j + 1)).last()
                        == fx@[j as int]@);
                }
                match &fx[j] {
                    ReplyEffect::Record(h, a) => {
                        peer_table_upsert(&mut self.peers, h.clone(), *a);
                    },
                    _ => {},
                }
                j += 1;
            }
            let ghost before = effects@;
            let ghost added = fx@;
            let mut fx = fx;
            effects.append(&mut fx);
            proof {
                assert(reply_effects_view(added).take(added.len() as int) =~= reply_effects_view(added));
                assert(reply_effects_view(effects@) =~= reply_effects_view(before) + reply_effects_view(added));
                assert(slns@.take(i + 1).drop_last() =~= slns@.take(i as int));
                assert(slns@.take(i + 1).last() == slns@[i as int]);
            }
            i += 1;
        }
        proof {
            assert(slns@.take(slns@.len() as int) =~= slns@);
        }
        effects
    }
}

} // verus!
