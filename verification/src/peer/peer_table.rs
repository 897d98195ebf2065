//! The table of known peers: where each identifier was last seen.
use crate::addr_v6::scope::Ipv6Scope;
use crate::utils::uid::Uid;
use dashmap::DashMap;
use vstd::prelude::*;

verus! {

/// The known peers: where each identifier was last seen.
pub type PeerStateTable = DashMap<Uid, Ipv6Scope>;

/// What the peer table holds: each identifier's text, with the peer's scope.
pub uninterp spec fn peer_table_contents(t: DashMap<Uid, Ipv6Scope>) -> Map<Seq<char>, Ipv6Scope>;

/// A table with no peer.
pub open spec fn empty_peer_table() -> Map<Seq<char>, Ipv6Scope> {
    Map::empty()
}

/// `DashMap::new`: an empty peer table.
#[verifier::external_body]
pub(crate) fn peer_table_new() -> (r: PeerStateTable)
    ensures
        peer_table_contents(r) == empty_peer_table(),
{
    DashMap::new()
}

/// Overwrites a recorded scope.
fn overwrite_scope(slot: &mut Ipv6Scope, value: Ipv6Scope)
    ensures
        *final(slot) == value,
{
    *slot = value;
}

/// `DashMap::entry(key)`, `Entry::and_modify` overwriting the scope of a known peer, then
/// `Entry::or_insert` for an unknown one: either way the key maps to `value` afterwards.
/// Identifiers are compared by their text, as `Uid`'s `Eq` and `Hash` do.
#[verifier::external_body]
pub(crate) fn peer_table_upsert(t: &mut PeerStateTable, key: Uid, value: Ipv6Scope)
    ensures
        peer_table_contents(*final(t)) == peer_table_contents(*old(t)).insert(key@, value),
{
    t.entry(key).and_modify(|slot| overwrite_scope(slot, value)).or_insert(value);
}

/// `DashMap::contains_key`: whether the identifier's text is a key.
#[verifier::external_body]
pub(crate) fn peer_table_contains(t: &PeerStateTable, key: &Uid) -> (r: bool)
    ensures
        r == peer_table_contents(*t).dom().contains(key@),
{
    t.contains_key(key)
}

} // verus!
