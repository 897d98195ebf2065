//! A cursor over the peers of a table of plans, by a snapshot of the table's identifiers.
use super::future_state::PeerFutureState;
use crate::utils::uid::Uid;
use dashmap::DashMap;
use vstd::prelude::*;

verus! {

/// The plans for the known peers, by their identifiers.
pub type PeerPlans = DashMap<Uid, PeerFutureState>;

/// What the table of plans holds: each identifier's text, with the peer's plan.
pub uninterp spec fn plans_contents(t: DashMap<Uid, PeerFutureState>) -> Map<
    Seq<char>,
    PeerFutureState,
>;

/// The texts of a list of identifiers.
pub open spec fn uid_texts(keys: Seq<Uid>) -> Seq<Seq<char>> {
    keys.map_values(|u: Uid| u@)
}

/// `DashMap::iter`, each entry's key cloned and collected: every identifier of the table,
/// each once. The order is that of the table's shards and buckets, which the hasher that
/// each table seeds at random decides; no clause states it.
#[verifier::external_body]
fn plans_keys(t: &PeerPlans) -> (r: Vec<Uid>)
    ensures
        uid_texts(r@).to_set() == plans_contents(*t).dom(),
        uid_texts(r@).no_duplicates(),
{
    t.iter().map(|record| record.key().clone()).collect()
}

/// `DashMap::get`, and a copy of the plan found. Identifiers are compared by their text, as
/// `Uid`'s `Eq` and `Hash` do.
#[verifier::external_body]
fn plans_get(t: &PeerPlans, key: &Uid) -> (r: Option<PeerFutureState>)
    ensures
        r == (if plans_contents(*t).dom().contains(key@) {
            Some(plans_contents(*t)[key@])
        } else {
            None
        }),
{
    match t.get(key) {
        Some(record) => Some(*record.value()),
        None => None,
    }
}

/// `DashMap::insert`: afterwards the identifier's text maps to the plan. Identifiers are
/// compared by their text, as `Uid`'s `Eq` and `Hash` do.
#[verifier::external_body]
fn plans_insert(t: &mut PeerPlans, key: Uid, plan: PeerFutureState)
    ensures
        plans_contents(*final(t)) == plans_contents(*old(t)).insert(key@, plan),
{
    let _ = t.insert(key, plan);
}

/// The table, the identifiers taken from it, and the position reached.
pub struct Cursor {
    peers: PeerPlans,
    keys: Vec<Uid>,
    current_index: usize,
}

/// A cursor as the contracts see it.
pub struct CursorView {
    pub peers: Map<Seq<char>, PeerFutureState>,
    pub keys: Seq<Seq<char>>,
    pub index: nat,
}

impl View for Cursor {
    type V = CursorView;

    closed spec fn view(&self) -> CursorView {
        CursorView {
            peers: plans_contents(self.peers),
            keys: uid_texts(self.keys@),
            index: self.current_index as nat,
        }
    }
}

/// The snapshot is of the table: every identifier in it has a plan.
pub open spec fn snapshot_of_table(c: CursorView) -> bool {
    forall|i: int| 0 <= i < c.keys.len() ==> c.peers.dom().contains(#[trigger] c.keys[i])
}

/// A fresh snapshot of the table: each of its identifiers once.
pub open spec fn whole_snapshot(keys: Seq<Seq<char>>, peers: Map<Seq<char>, PeerFutureState>) -> bool {
    keys.to_set() == peers.dom() && keys.no_duplicates()
}

impl Cursor {
    /// A cursor at the start of a snapshot of the table's identifiers.
    pub fn new(peers: PeerPlans) -> (r: Self)
        ensures
            r@.peers == plans_contents(peers),
            whole_snapshot(r@.keys, r@.peers),
            r@.index == 0,
            snapshot_of_table(r@),
    {
        let keys = plans_keys(&peers);
        let r = Cursor { keys, current_index: 0, peers };
        proof {
            assert forall|i: int| 0 <= i < r@.keys.len() implies r@.peers.dom().contains(
                #[trigger] r@.keys[i],
            ) by {
                assert(r@.keys.to_set().contains(r@.keys[i]));
            }
        }
        r
    }

    /// The identifier and plan of the record at the cursor, which then moves on to the next
    /// one: call `i` on a snapshot returns the record of its key `i`. Past the end of the
    /// snapshot, the cursor restarts on a fresh snapshot of the table, which must not be
    /// empty then, and returns the record of its first key.
    pub fn get_next_record(&mut self) -> (r: (Uid, PeerFutureState))
        requires
            snapshot_of_table(old(self)@),
            old(self)@.index >= old(self)@.keys.len() ==> old(self)@.peers.dom().len() > 0,
        ensures
            final(self)@.peers == old(self)@.peers,
            snapshot_of_table(final(self)@),
            0 < final(self)@.index <= final(self)@.keys.len(),
            old(self)@.index < old(self)@.keys.len() ==> final(self)@.keys == old(self)@.keys
                && final(self)@.index == old(self)@.index + 1,
            old(self)@.index >= old(self)@.keys.len() ==> whole_snapshot(
                final(self)@.keys,
                final(self)@.peers,
            ) && final(self)@.index == 1,
            r.0@ == final(self)@.keys[final(self)@.index - 1],
            r.1 == final(self)@.peers[r.0@],
    {
        if self.current_index >= self.keys.len() {
            let keys = plans_keys(&self.peers);
            proof {
                let texts = uid_texts(keys@);
                let dom = plans_contents(self.peers).dom();
                assert forall|i: int| 0 <= i < texts.len() implies dom.contains(
                    #[trigger] texts[i],
                ) by {
                    assert(texts.to_set().contains(texts[i]));
                }
                if texts.len() == 0 {
                    assert(texts.to_set() =~= Set::<Seq<char>>::empty());
                    assert(dom.len() == 0);
                }
                assert(texts.len() > 0);
            }
            self.keys = keys;
            self.current_index = 0;
        }
        let key = self.keys[self.current_index].clone();
        proof {
            assert(self@.keys[self.current_index as int] == self.keys@[self.current_index as int]@);
            assert(self@.peers.dom().contains(self@.keys[self.current_index as int]));
        }
        let plan = plans_get(&self.peers, &key).unwrap();
        self.current_index = self.current_index + 1;
        (key, plan)
    }

    /// Writes a plan back into the table, as a caller holding the record would; the
    /// snapshot and the position stay.
    pub(crate) fn set_record(&mut self, key: Uid, plan: PeerFutureState)
        requires
            snapshot_of_table(old(self)@),
        ensures
            final(self)@.peers == old(self)@.peers.insert(key@, plan),
            final(self)@.keys == old(self)@.keys,
            final(self)@.index == old(self)@.index,
            snapshot_of_table(final(self)@),
    {
        plans_insert(&mut self.peers, key, plan);
    }
}

} // verus!
