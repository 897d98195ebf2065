use super::flags::PeerEventFlags;
use crate::addr_v6::scope::Ipv6Scope;
use crate::utils::uid::Uid;
use dashmap::DashMap;
use vstd::prelude::*;

verus! {

/// What the state table knows of a peer: where it is and how far the session got.
#[derive(Debug)]
pub struct StateEntry {
    addr: Ipv6Scope,
    pub state: PeerEventFlags,
    shared_key: Option<u8>,
}

/// A state entry as the contracts see it: address, state, shared key.
pub struct StateEntryView {
    pub addr: Ipv6Scope,
    pub state: PeerEventFlags,
    pub shared_key: Option<u8>,
}

impl View for StateEntry {
    type V = StateEntryView;

    closed spec fn view(&self) -> StateEntryView {
        StateEntryView { addr: self.addr, state: self.state, shared_key: self.shared_key }
    }
}

impl StateEntry {
    /// A fresh entry, with no shared key yet.
    pub fn new(addr: Ipv6Scope, init_state: PeerEventFlags) -> (r: Self)
        ensures
            r@ == (StateEntryView { addr, state: init_state, shared_key: None }),
    {
        Self { addr, state: init_state, shared_key: None }
    }

    /// Where the peer is.
    pub fn addr(&self) -> (r: Ipv6Scope)
        ensures
            r == self@.addr,
    {
        self.addr
    }
}

#[verifier::external_type_specification]
#[verifier::external_body]
#[verifier::reject_recursive_types(K)]
#[verifier::reject_recursive_types(V)]
#[verifier::reject_recursive_types(S)]
pub struct ExDashMap<K, V, S>(DashMap<K, V, S>);

/// The table of peers, keyed by their identifiers.
pub type StateTable = DashMap<Uid, StateEntry>;

/// What the table holds: each peer's identifier text, with its entry.
pub uninterp spec fn table_contents(t: DashMap<Uid, StateEntry>) -> Map<Seq<char>, StateEntryView>;

/// A table with no peer.
pub open spec fn empty_table() -> Map<Seq<char>, StateEntryView> {
    Map::empty()
}

/// `DashMap::new`: an empty table.
#[verifier::external_body]
pub(crate) fn state_table_new() -> (r: DashMap<Uid, StateEntry>)
    ensures
        table_contents(r) == empty_table(),
{
    DashMap::new()
}

/// `DashMap::insert`: afterwards the key maps to the value; the entry it had before, if any,
/// comes back. Identifiers are compared by their text, as `Uid`'s `Eq` and `Hash` do.
#[verifier::external_body]
pub(crate) fn state_table_insert(t: &mut StateTable, key: Uid, value: StateEntry) -> (r: Option<
    StateEntry,
>)
    ensures
        table_contents(*final(t)) == table_contents(*old(t)).insert(key@, value@),
        r is Some <==> table_contents(*old(t)).dom().contains(key@),
        r matches Some(prev) ==> prev@ == table_contents(*old(t))[key@],
{
    t.insert(key, value)
}

} // verus!
