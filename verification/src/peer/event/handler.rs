use super::event::{PeerEvent, PeerEventView};
use super::flags::PeerEventFlags;
use super::state_table::{
    empty_table, state_table_insert, state_table_new, table_contents, StateEntry, StateEntryView,
    StateTable,
};
use crate::addr_v6::scope::Ipv6Scope;
use crate::msg::msg::{Msg, MsgView};
use crate::utils::uid::Uid;
use vstd::prelude::*;

verus! {

/// Something the handler asks its surroundings to do.
#[derive(Debug)]
pub enum HandlerEffect {
    /// Send a message to an address.
    Send(Msg, Ipv6Scope),
    /// Feed an event back into the handler's own queue.
    Loopback(PeerEvent),
    /// Give this host a fresh identifier.
    RegenerateHostId,
}

/// An effect as the contracts see it.
pub enum HandlerEffectView {
    Send(MsgView, Ipv6Scope),
    Loopback(PeerEventView),
    RegenerateHostId,
}

impl View for HandlerEffect {
    type V = HandlerEffectView;

    open spec fn view(&self) -> HandlerEffectView {
        match self {
            HandlerEffect::Send(m, a) => HandlerEffectView::Send(m@, *a),
            HandlerEffect::Loopback(e) => HandlerEffectView::Loopback(e@),
            HandlerEffect::RegenerateHostId => HandlerEffectView::RegenerateHostId,
        }
    }
}

/// The effects of a list, as the contracts see them.
pub open spec fn effects_view(effects: Seq<HandlerEffect>) -> Seq<HandlerEffectView> {
    effects.map_values(|e: HandlerEffect| e@)
}

/// The entry of a peer that has paired: its address, established, no key yet.
pub open spec fn established_entry(addr: Ipv6Scope) -> StateEntryView {
    StateEntryView { addr, state: PeerEventFlags { bits: 0b0000_0100 }, shared_key: None }
}

/// One step of the handler: the table afterwards and the effects, for a table, the
/// identifier of this host and an event.
/// A hello from another host is answered with a connect carrying this host's identifier,
/// loops back an established event and records the peer as established; a hello that
/// carries this host's own identifier is answered with a conflict and changes nothing.
/// A connect loops back an established event and records the peer. An established event
/// changes nothing. A conflict asks for a fresh identifier.
pub open spec fn spec_react(
    table: Map<Seq<char>, StateEntryView>,
    local: Seq<char>,
    event: PeerEventView,
) -> (Map<Seq<char>, StateEntryView>, Seq<HandlerEffectView>) {
    match event {
        PeerEventView::Hello { host_id, addr } => if host_id == local {
            (table, seq![HandlerEffectView::Send(MsgView::Conflict, addr)])
        } else {
            (
                table.insert(host_id, established_entry(addr)),
                seq![
                    HandlerEffectView::Send(MsgView::Connect { host_id: local }, addr),
                    HandlerEffectView::Loopback(PeerEventView::Established),
                ],
            )
        },
        PeerEventView::Connect { host_id, addr } => (
            table.insert(host_id, established_entry(addr)),
            seq![HandlerEffectView::Loopback(PeerEventView::Established)],
        ),
        PeerEventView::Established => (table, Seq::empty()),
        PeerEventView::Conflict { .. } => (table, seq![HandlerEffectView::RegenerateHostId]),
    }
}

/// Reacts to peer events and keeps the table of paired peers.
pub struct PeerEventHandler {
    pub peers_state: StateTable,
}

impl Default for PeerEventHandler {
    /// A handler with an empty table.
    fn default() -> (r: Self)
        ensures
            table_contents(r.peers_state) == empty_table(),
    {
        PeerEventHandler { peers_state: state_table_new() }
    }
}

impl PeerEventHandler {
    /// Handles one event for the host whose identifier is `local_host_id`; see `spec_react`.
    pub fn handle_event(&mut self, local_host_id: &Uid, event: PeerEvent) -> (effects: Vec<
        HandlerEffect,
    >)
        ensures
            (table_contents(final(self).peers_state), effects_view(effects@)) == spec_react(
                table_contents(old(self).peers_state),
                local_host_id@,
                event@,
            ),
    {
        let mut effects: Vec<HandlerEffect> = Vec::new();
        match event {
            PeerEvent::Hello { host_id: remote_host_id, addr: dest } => {
                if *local_host_id == remote_host_id {
                    effects.push(HandlerEffect::Send(Msg::Conflict, dest));
                } else {
                    let msg = Msg::Connect { host_id: local_host_id.clone() };
                    effects.push(HandlerEffect::Send(msg, dest));
                    effects.push(HandlerEffect::Loopback(PeerEvent::Established));
                    let _ = state_table_insert(
                        &mut self.peers_state,
                        remote_host_id,
                        StateEntry::new(dest, PeerEventFlags::established()),
                    );
                }
            },
            PeerEvent::Connect { host_id: remote_host_id, addr: dest } => {
                effects.push(HandlerEffect::Loopback(PeerEvent::Established));
                let _ = state_table_insert(
                    &mut self.peers_state,
                    remote_host_id,
                    StateEntry::new(dest, PeerEventFlags::established()),
                );
            },
            PeerEvent::Established => {},
            PeerEvent::Conflict { .. } => {
                effects.push(HandlerEffect::RegenerateHostId);
            },
        }
        proof {
            assert(effects_view(effects@) =~= spec_react(
                table_contents(old(self).peers_state),
                local_host_id@,
                event@,
            ).1);
        }
        effects
    }
}

/// A hello that carries this host's own identifier is answered with a conflict sent back
/// to its address, and the table stays as it was.
pub proof fn lemma_own_hello_conflicts(
    table: Map<Seq<char>, StateEntryView>,
    local: Seq<char>,
    addr: Ipv6Scope,
)
    ensures
        spec_react(table, local, PeerEventView::Hello { host_id: local, addr }) == (
            table,
            seq![HandlerEffectView::Send(MsgView::Conflict, addr)],
        ),
{
}

/// After a hello from another host, or a connect from any host, the table records that
/// host as established at the event's address, and a connect carrying this host's
/// identifier is sent there for a hello.
pub proof fn lemma_pairing_records_peer(
    table: Map<Seq<char>, StateEntryView>,
    local: Seq<char>,
    event: PeerEventView,
)
    ensures
        match event {
            PeerEventView::Hello { host_id, addr } => host_id != local ==> {
                let (t, fx) = spec_react(table, local, event);
                &&& t.dom().contains(host_id)
                &&& t[host_id] == established_entry(addr)
                &&& fx.contains(HandlerEffectView::Send(MsgView::Connect { host_id: local }, addr))
            },
            PeerEventView::Connect { host_id, addr } => {
                let (t, _) = spec_react(table, local, event);
                &&& t.dom().contains(host_id)
                &&& t[host_id] == established_entry(addr)
            },
            _ => true,
        },
{
    if let PeerEventView::Hello { host_id, addr } = event {
        if host_id != local {
            let fx = spec_react(table, local, event).1;
            assert(fx[0] == HandlerEffectView::Send(MsgView::Connect { host_id: local }, addr));
        }
    }
}

/// The handler never forgets a peer, and leaves every peer but the one an event names as
/// it was.
pub proof fn lemma_table_only_grows(
    table: Map<Seq<char>, StateEntryView>,
    local: Seq<char>,
    event: PeerEventView,
)
    ensures
        ({
            let t = spec_react(table, local, event).0;
            forall|k: Seq<char>|
                #[trigger] table.dom().contains(k) ==> t.dom().contains(k) && (match event {
                    PeerEventView::Hello { host_id, .. } => k != host_id,
                    PeerEventView::Connect { host_id, .. } => k != host_id,
                    _ => true,
                } ==> t[k] == table[k])
        }),
{
}

/// Every peer in the table is established, whatever events come: the handler only ever
/// records established entries.
pub proof fn lemma_table_holds_established(
    table: Map<Seq<char>, StateEntryView>,
    local: Seq<char>,
    event: PeerEventView,
)
    requires
        forall|k: Seq<char>| #[trigger]
            table.dom().contains(k) ==> table[k].state == (PeerEventFlags { bits: 0b0000_0100 }),
    ensures
        ({
            let t = spec_react(table, local, event).0;
            forall|k: Seq<char>| #[trigger]
                t.dom().contains(k) ==> t[k].state == (PeerEventFlags { bits: 0b0000_0100 })
        }),
{
}

/// Messages only ever go to the address named by the event, and only a hello makes the
/// handler send one.
pub proof fn lemma_replies_go_to_sender(
    table: Map<Seq<char>, StateEntryView>,
    local: Seq<char>,
    event: PeerEventView,
)
    ensures
        ({
            let fx = spec_react(table, local, event).1;
            forall|i: int|
                0 <= i < fx.len() ==> (#[trigger] fx[i] matches HandlerEffectView::Send(_, to)
                    ==> event matches PeerEventView::Hello { addr, .. } && to == addr)
        }),
{
}

/// Handling the same connect twice leaves the table as handling it once.
pub proof fn lemma_connect_idempotent(
    table: Map<Seq<char>, StateEntryView>,
    local: Seq<char>,
    host_id: Seq<char>,
    addr: Ipv6Scope,
)
    ensures
        ({
            let e = PeerEventView::Connect { host_id, addr };
            let once = spec_react(table, local, e).0;
            spec_react(once, local, e).0 == once
        }),
{
    let e = PeerEventView::Connect { host_id, addr };
    let once = spec_react(table, local, e).0;
    assert(once.insert(host_id, established_entry(addr)) =~= once);
}

/// The table after `handle_event` has handled a run of events in order, one call each.
pub open spec fn run_events(
    table: Map<Seq<char>, StateEntryView>,
    local: Seq<char>,
    events: Seq<PeerEventView>,
) -> Map<Seq<char>, StateEntryView>
    decreases events.len(),
{
    if events.len() == 0 {
        table
    } else {
        spec_react(run_events(table, local, events.drop_last()), local, events.last()).0
    }
}

/// Over any run of events handed to `handle_event`: a peer once in the table stays in it, and when every entry was
/// established to begin with, every entry is established at the end.
pub proof fn lemma_run_keeps_peers_established(
    table: Map<Seq<char>, StateEntryView>,
    local: Seq<char>,
    events: Seq<PeerEventView>,
)
    ensures
        table.dom().subset_of(run_events(table, local, events).dom()),
        (forall|k: Seq<char>| #[trigger]
            table.dom().contains(k) ==> table[k].state == (PeerEventFlags { bits: 0b0000_0100 }))
            ==> (forall|k: Seq<char>| #[trigger]
            run_events(table, local, events).dom().contains(k) ==> run_events(
                table,
                local,
                events,
            )[k].state == (PeerEventFlags { bits: 0b0000_0100 })),
    decreases events.len(),
{
    if events.len() > 0 {
        let before = run_events(table, local, events.drop_last());
        lemma_run_keeps_peers_established(table, local, events.drop_last());
        lemma_table_only_grows(before, local, events.last());
        if forall|k: Seq<char>| #[trigger]
            table.dom().contains(k) ==> table[k].state == (PeerEventFlags { bits: 0b0000_0100 }) {
            lemma_table_holds_established(before, local, events.last());
        }
    }
}

} // verus!
