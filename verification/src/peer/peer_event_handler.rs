//! The event handler that hands each event to the solutions registered for its kind.
use super::event::event::{PeerEvent, PeerEventView};
use super::peer_event_solution::{
    apply_solution_records, as_solution, context_serves, solution_effects_view, PeerEventSolution, SolutionContext, SolutionContextView,
    SolutionEffect, SolutionEffectView, SolutionError,
};
use super::peer_table::{
    empty_peer_table, peer_table_contents, peer_table_new,
    peer_table_upsert, PeerStateTable,
};
use super::solutions::hello_reply::HelloReply;
use crate::addr_v6::scope::Ipv6Scope;
use dashmap::DashMap;
use vstd::prelude::*;

verus! {

/// The registered solutions, by the flag bits of the event kind they handle.
pub type SolutionMapping = DashMap<u8, Vec<&'static dyn PeerEventSolution>>;

/// What the mapping holds: for each kind's bits, its solutions in the order they registered.
pub uninterp spec fn mapping_contents(m: DashMap<u8, Vec<&'static dyn PeerEventSolution>>) -> Map<
    u8,
    Seq<&'static dyn PeerEventSolution>,
>;

/// A mapping with no kind.
pub open spec fn empty_mapping() -> Map<u8, Seq<&'static dyn PeerEventSolution>> {
    Map::empty()
}

/// `DashMap::new`: an empty mapping.
#[verifier::external_body]
fn mapping_new() -> (r: SolutionMapping)
    ensures
        mapping_contents(r) == empty_mapping(),
{
    DashMap::new()
}

/// `DashMap::insert`: afterwards the key maps to the list.
#[verifier::external_body]
fn mapping_insert(m: &mut SolutionMapping, key: u8, list: Vec<&'static dyn PeerEventSolution>)
    ensures
        mapping_contents(*final(m)) == mapping_contents(*old(m)).insert(key, list@),
{
    let _ = m.insert(key, list);
}

/// Adds a solution at the end of a list.
fn push_solution(list: &mut Vec<&'static dyn PeerEventSolution>, s: &'static dyn PeerEventSolution)
    ensures
        final(list)@ == old(list)@.push(s),
{
    list.push(s);
}

/// The mapping with `s` added at the end of `key`'s list, when `key` is there.
pub open spec fn push_if_present<S: PeerEventSolution>(
    m: Map<u8, Seq<&'static dyn PeerEventSolution>>,
    key: u8,
    s: &'static S,
) -> Map<u8, Seq<&'static dyn PeerEventSolution>> {
    if m.dom().contains(key) {
        m.insert(key, m[key].push(as_solution(s)))
    } else {
        m
    }
}

/// `DashMap::entry(key)` then `Entry::and_modify`, appending `s` to the list of a key that
/// is present; an absent key is left absent.
#[verifier::external_body]
fn mapping_push_if_present<S: PeerEventSolution>(m: &mut SolutionMapping, key: u8, s: &'static S)
    ensures
        mapping_contents(*final(m)) == push_if_present(mapping_contents(*old(m)), key, s),
{
    m.entry(key).and_modify(|list| push_solution(list, s));
}

/// `DashMap::get(key)`, and a copy of the list found (the references, in order); an empty
/// list for an absent key.
#[verifier::external_body]
fn mapping_solutions(m: &SolutionMapping, key: u8) -> (r: Vec<&'static dyn PeerEventSolution>)
    ensures
        r@ == (if mapping_contents(*m).dom().contains(key) {
            mapping_contents(*m)[key]
        } else {
            Seq::empty()
        }),
{
    match m.get(&key) {
        Some(entry) => entry.value().clone(),
        None => Vec::new(),
    }
}

/// Registering a solution with interest bits `bits`: it joins the list of hello events
/// (bit 1) and of connect events (bit 2) that it wants, and the list of any other bits it
/// names together, each only where the mapping has that kind.
pub open spec fn spec_registered<S: PeerEventSolution>(
    m: Map<u8, Seq<&'static dyn PeerEventSolution>>,
    bits: u8,
    s: &'static S,
) -> Map<u8, Seq<&'static dyn PeerEventSolution>> {
    let m1 = if bits & 1u8 == 1u8 {
        push_if_present(m, 1u8, s)
    } else {
        m
    };
    let m2 = if bits & 2u8 == 2u8 {
        push_if_present(m1, 2u8, s)
    } else {
        m1
    };
    let rest = bits & !3u8;
    if rest != 0 {
        push_if_present(m2, rest, s)
    } else {
        m2
    }
}

/// Handing an event to solutions in order: their effects one after the other, up to the
/// first that fails, and that failure.
pub open spec fn run_solutions(
    slns: Seq<&'static dyn PeerEventSolution>,
    event: PeerEventView,
    ctx: SolutionContextView,
) -> (Seq<SolutionEffectView>, Option<SolutionError>)
    decreases slns.len(),
{
    if slns.len() == 0 {
        (Seq::empty(), None)
    } else {
        let (fx, failure) = run_solutions(slns.drop_last(), event, ctx);
        if failure is Some {
            (fx, failure)
        } else {
            match slns.last().spec_dispatch(event, ctx) {
                Ok(more) => (fx + more, None),
                Err(e) => (fx, Some(e)),
            }
        }
    }
}

/// Once a solution has failed, the later ones are not run.
proof fn lemma_failure_stops(
    slns: Seq<&'static dyn PeerEventSolution>,
    k: int,
    event: PeerEventView,
    ctx: SolutionContextView,
)
    requires
        0 <= k <= slns.len(),
        run_solutions(slns.take(k), event, ctx).1 is Some,
    ensures
        run_solutions(slns, event, ctx) == run_solutions(slns.take(k), event, ctx),
    decreases slns.len() - k,
{
    if k < slns.len() {
        assert(slns.take(k + 1).drop_last() =~= slns.take(k));
        lemma_failure_stops(slns, k + 1, event, ctx);
    } else {
        assert(slns.take(k) =~= slns);
    }
}

/// With no solution registered for its kind, an event has no effect and nothing fails.
pub proof fn lemma_no_solution_no_effect(event: PeerEventView, ctx: SolutionContextView)
    ensures
        run_solutions(Seq::empty(), event, ctx) == (Seq::<SolutionEffectView>::empty(), None::<
            SolutionError,
        >),
{
}

/// What handling an event comes to.
#[derive(Debug)]
pub enum HandlingOutcome {
    /// The effects of the solutions, and the failure that stopped them, if one did.
    Solved { effects: Vec<SolutionEffect>, failure: Option<SolutionError> },
    /// This host's identifier is taken; a fresh one is needed.
    RegenerateHostId,
}

/// An outcome as the contracts see it.
pub enum HandlingOutcomeView {
    Solved { effects: Seq<SolutionEffectView>, failure: Option<SolutionError> },
    RegenerateHostId,
}

impl View for HandlingOutcome {
    type V = HandlingOutcomeView;

    open spec fn view(&self) -> HandlingOutcomeView {
        match self {
            HandlingOutcome::Solved { effects, failure } => HandlingOutcomeView::Solved {
                effects: solution_effects_view(effects@),
                failure: *failure,
            },
            HandlingOutcome::RegenerateHostId => HandlingOutcomeView::RegenerateHostId,
        }
    }
}

/// The solutions registered for a kind.
pub open spec fn solutions_of(m: Map<u8, Seq<&'static dyn PeerEventSolution>>, key: u8) -> Seq<
    &'static dyn PeerEventSolution,
> {
    if m.dom().contains(key) {
        m[key]
    } else {
        Seq::empty()
    }
}

/// Handling an event: a hello goes to the hello solutions (bit 1), a connect to the connect
/// solutions (bit 2); an established event, there only to be logged, is solved with no
/// effect; a conflict asks for a fresh identifier.
pub open spec fn spec_handling(
    m: Map<u8, Seq<&'static dyn PeerEventSolution>>,
    event: PeerEventView,
    ctx: SolutionContextView,
) -> HandlingOutcomeView {
    match event {
        PeerEventView::Hello { .. } => {
            let (effects, failure) = run_solutions(solutions_of(m, 1u8), event, ctx);
            HandlingOutcomeView::Solved { effects, failure }
        },
        PeerEventView::Connect { .. } => {
            let (effects, failure) = run_solutions(solutions_of(m, 2u8), event, ctx);
            HandlingOutcomeView::Solved { effects, failure }
        },
        PeerEventView::Established => HandlingOutcomeView::Solved {
            effects: Seq::empty(),
            failure: None,
        },
        PeerEventView::Conflict { .. } => HandlingOutcomeView::RegenerateHostId,
    }
}

/// The peer table after handling an event: the records among the effects of the solutions
/// that ran are entered in order; any other event leaves the table as it was.
pub open spec fn spec_handled_peers(
    peers: Map<Seq<char>, Ipv6Scope>,
    m: Map<u8, Seq<&'static dyn PeerEventSolution>>,
    event: PeerEventView,
    ctx: SolutionContextView,
) -> Map<Seq<char>, Ipv6Scope> {
    match spec_handling(m, event, ctx) {
        HandlingOutcomeView::Solved { effects, .. } => apply_solution_records(peers, effects),
        HandlingOutcomeView::RegenerateHostId => peers,
    }
}

/// The handler as the contracts see it: the peer table and the registered solutions.
pub struct HandlerView {
    pub peers: Map<Seq<char>, Ipv6Scope>,
    pub mapping: Map<u8, Seq<&'static dyn PeerEventSolution>>,
}

/// Hands events to the solutions registered for their kinds, and keeps the table of peers
/// they record.
pub struct PeerEventHandler {
    pub peers_state: PeerStateTable,
    solution_mapping: SolutionMapping,
}

impl View for PeerEventHandler {
    type V = HandlerView;

    closed spec fn view(&self) -> HandlerView {
        HandlerView {
            peers: peer_table_contents(self.peers_state),
            mapping: mapping_contents(self.solution_mapping),
        }
    }
}

impl Default for PeerEventHandler {
    /// A handler with no peer, the hello and connect kinds, and no solution yet.
    fn default() -> (r: Self)
        ensures
            r@.peers == empty_peer_table(),
            r@.mapping == empty_mapping().insert(1u8, Seq::empty()).insert(2u8, Seq::empty()),
    {
        let mut m = mapping_new();
        mapping_insert(&mut m, 1, Vec::new());
        mapping_insert(&mut m, 2, Vec::new());
        PeerEventHandler { peers_state: peer_table_new(), solution_mapping: m }
    }
}

impl PeerEventHandler {
    /// Registers a solution for the kinds of events it wants.
    pub fn registry<S: PeerEventSolution>(&mut self, sln: &'static S)
        ensures
            final(self)@.mapping == spec_registered(
                old(self)@.mapping,
                sln.spec_interest(),
                sln,
            ),
            final(self)@.peers == old(self)@.peers,
    {
        let bits = sln.interest().bits();
        if bits & 1 == 1 {
            mapping_push_if_present(&mut self.solution_mapping, 1, sln);
        }
        if bits & 2 == 2 {
            mapping_push_if_present(&mut self.solution_mapping, 2, sln);
        }
        let rest = bits & !3u8;
        if rest != 0 {
            mapping_push_if_present(&mut self.solution_mapping, rest, sln);
        }
    }

    /// A handler with no peer whose hello kind lists the hello reply, and whose connect kind
    /// lists nothing.
    pub fn with_hello_reply() -> (r: Self)
        ensures
            r@.peers == empty_peer_table(),
            r@.mapping.dom() == set![1u8, 2u8],
            r@.mapping[1u8] == Seq::<&'static dyn PeerEventSolution>::empty().push(
                as_solution(&HelloReply),
            ),
            r@.mapping[2u8] == Seq::<&'static dyn PeerEventSolution>::empty(),
    {
        let mut h = Self::default();
        let inst = HelloReply::instance();
        proof {
            assert(1u8 & 1u8 == 1u8 && 1u8 & 2u8 == 0u8 && 1u8 & !3u8 == 0u8) by (bit_vector);
        }
        let ghost m0 = h@.mapping;
        h.registry(inst);
        proof {
            assert(inst.spec_interest() == 1u8);
            assert(inst == &HelloReply);
            assert(h@.mapping == spec_registered(m0, 1u8, inst));
            assert(m0.dom().contains(1u8));
            assert(m0[1u8] == Seq::<&'static dyn PeerEventSolution>::empty());
            let v = m0[1u8].push(as_solution(inst));
            assert(h@.mapping == m0.insert(1u8, v));
            vstd::map::axiom_map_insert_domain(m0, 1u8, v);
            vstd::map::axiom_map_insert_same(m0, 1u8, v);
            vstd::map::axiom_map_insert_different(m0, 1u8, 2u8, v);
            assert(h@.mapping.dom() =~= set![1u8, 2u8]);
        }
        h
    }

    /// Handles one event: its outcome is `spec_handling`, and the peers that the solutions
    /// record enter the table, as `spec_handled_peers` says.
    pub fn handling(&mut self, event: PeerEvent, ctx: &SolutionContext) -> (r: HandlingOutcome)
        requires
            context_serves(event@, ctx@),
        ensures
            r@ == spec_handling(old(self)@.mapping, event@, ctx@),
            final(self)@.peers == spec_handled_peers(
                old(self)@.peers,
                old(self)@.mapping,
                event@,
                ctx@,
            ),
            final(self)@.mapping == old(self)@.mapping,
    {
        let key: u8 = match event {
            PeerEvent::Hello { .. } => 1,
            PeerEvent::Connect { .. } => 2,
            PeerEvent::Established => {
                let none: Vec<SolutionEffect> = Vec::new();
                proof {
                    assert(solution_effects_view(none@) =~= Seq::<SolutionEffectView>::empty());
                }
                return HandlingOutcome::Solved { effects: none, failure: None };
            },
            PeerEvent::Conflict { .. } => return HandlingOutcome::RegenerateHostId,
        };
        let ghost peers0 = self@.peers;
        let slns = mapping_solutions(&self.solution_mapping, key);
        let mut effects: Vec<SolutionEffect> = Vec::new();
        let mut i: usize = 0;
        while i < slns.len()
            invariant
                i <= slns.len(),
                context_serves(event@, ctx@),
                slns@ == solutions_of(self@.mapping, key),
                self@.mapping == old(self)@.mapping,
                peers0 == old(self)@.peers,
                event@ is Hello ==> key == 1,
                event@ is Connect ==> key == 2,
                event@ is Hello || event@ is Connect,
                (solution_effects_view(effects@), None::<SolutionError>) == run_solutions(
                    slns@.take(i as int),
                    event@,
                    ctx@,
                ),
                self@.peers == apply_solution_records(peers0, solution_effects_view(effects@)),
            decreases slns.len() - i,
        {
            proof {
                assert(slns@.take(i + 1).drop_last() =~= slns@.take(i as int));
                assert(slns@.take(i + 1).last() == slns@[i as int]);
            }
            match slns[i].dispatch_solution(event.clone(), ctx) {
                Ok(more) => {
                    let mut j: usize = 0;
                    while j < more.len()
                        invariant
                            j <= more.len(),
                            self@.mapping == old(self)@.mapping,
                            self@.peers == apply_solution_records(
                                peers0,
                                solution_effects_view(effects@) + solution_effects_view(
                                    more@,
                                ).take(j as int),
                            ),
                        decreases more.len() - j,
                    {
                        let ghost done = solution_effects_view(effects@) + solution_effects_view(
                            more@,
                        ).take(j as int);
                        proof {
                            assert((solution_effects_view(effects@) + solution_effects_view(
                                more@,
                            ).take(j + 1)).drop_last() =~= done);
                            assert((solution_effects_view(effects@) + solution_effects_view(
                                more@,
                            ).take(j + 1)).last() == more@[j as int]@);
                        }
                        match &more[j] {
                            SolutionEffect::Record(h, a) => {
                                peer_table_upsert(&mut self.peers_state, h.clone(), *a);
                            },
                            _ => {},
                        }
                        j += 1;
                    }
                    let ghost before = effects@;
                    let ghost added = more@;
                    let mut more = more;
                    effects.append(&mut more);
                    proof {
                        assert(solution_effects_view(added).take(added.len() as int)
                            =~= solution_effects_view(added));
                        assert(effects@ == before + added);
                        assert(solution_effects_view(effects@) =~= solution_effects_view(before)
                            + solution_effects_view(added));
                    }
                },
                Err(e) => {
                    proof {
                        assert(run_solutions(slns@.take(i + 1), event@, ctx@) == (
                            solution_effects_view(effects@),
                            Some(e),
                        ));
                        lemma_failure_stops(slns@, i + 1, event@, ctx@);
                    }
                    return HandlingOutcome::Solved { effects, failure: Some(e) };
                },
            }
            i += 1;
        }
        proof {
            assert(slns@.take(slns@.len() as int) =~= slns@);
        }
        HandlingOutcome::Solved { effects, failure: None }
    }
}

} // verus!
