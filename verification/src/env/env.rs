//! The host's view of its network adapters, and the link-local address it announces.
use crate::addr_v6::ip::{IpAddr, Ipv6Addr};
use crate::addr_v6::scope::{cast_mode_of, spec_classify, CastMode, Ipv6Scope};
use crate::utils::env::{is_fresh_id, random_host_id};
use crate::utils::uid::Uid;
use vstd::prelude::*;

verus! {

/// Why no address to announce could be found.
#[derive(Debug, Clone, Copy, PartialEq, Eq)]
pub enum EnvError {
    BestMetricNicNotFound,
    LocalLinkNotFound,
    RouteUnavailable,
}

/// One adapter with IPv6 routing: its interface index (the scope identifier of its link),
/// its IPv6 metric, and its addresses that have a scope.
pub type NicEntry = (u32, (u32, Vec<Ipv6Scope>));

/// What the operating system reports of a network adapter.
#[derive(Debug)]
pub struct Adapter {
    pub gateways: Vec<IpAddr>,
    pub ip_addresses: Vec<IpAddr>,
    pub ipv6_if_index: u32,
    pub ipv6_metric: u32,
}

/// The host's settings: identifier, adapters by interface index, multicast groups and port.
#[derive(Debug)]
pub struct Env {
    pub host_id: Uid,
    pub nics: Vec<NicEntry>,
    pub multicast_local: Ipv6Addr,
    pub multicast_global: Ipv6Addr,
    pub port: u16,
}

/// `b` is the position of the entry with the smallest metric, the first such.
pub open spec fn is_min_metric_index(nics: Seq<NicEntry>, b: int) -> bool {
    &&& 0 <= b < nics.len()
    &&& forall|j: int| 0 <= j < nics.len() ==> nics[b].1.0 <= #[trigger] nics[j].1.0
    &&& forall|j: int| 0 <= j < b ==> nics[b].1.0 < #[trigger] nics[j].1.0
}

/// The last link-local scope of a list.
pub open spec fn last_lan(addrs: Seq<Ipv6Scope>) -> Option<Ipv6Scope>
    decreases addrs.len(),
{
    if addrs.len() == 0 {
        None
    } else if addrs.last() is Lan {
        Some(addrs.last())
    } else {
        last_lan(addrs.drop_last())
    }
}

/// The link-local scope to announce: from the adapter with the smallest metric,
/// its last link-local address.
pub open spec fn spec_best_local_link(nics: Seq<NicEntry>) -> Result<Ipv6Scope, EnvError> {
    if nics.len() == 0 {
        Err(EnvError::RouteUnavailable)
    } else {
        let b = choose|b: int| is_min_metric_index(nics, b);
        match last_lan(nics[b].1.1@) {
            Some(s) => Ok(s),
            None => Err(EnvError::BestMetricNicNotFound),
        }
    }
}

/// The last link-local scope of a list is a `Lan` scope of the list.
pub proof fn lemma_last_lan_is_lan(addrs: Seq<Ipv6Scope>)
    ensures
        last_lan(addrs) matches Some(s) ==> s is Lan && addrs.contains(s),
    decreases addrs.len(),
{
    if addrs.len() > 0 {
        if addrs.last() is Lan {
            assert(addrs[addrs.len() - 1] == addrs.last());
        } else {
            lemma_last_lan_is_lan(addrs.drop_last());
            if let Some(s) = last_lan(addrs.drop_last()) {
                let j = choose|j: int| 0 <= j < addrs.drop_last().len() && addrs.drop_last()[j] == s;
                assert(addrs[j] == s);
            }
        }
    }
}

/// The scope picked from a list is its last link-local one: it stands at some position,
/// and no link-local scope comes after it; when none is picked, the list has no link-local
/// scope at all.
pub proof fn lemma_last_lan_is_last(addrs: Seq<Ipv6Scope>)
    ensures
        match last_lan(addrs) {
            Some(s) => exists|k: int|
                0 <= k < addrs.len() && addrs[k] == s && s is Lan && (forall|j: int|
                    k < j < addrs.len() ==> !(#[trigger] addrs[j] is Lan)),
            None => forall|j: int| 0 <= j < addrs.len() ==> !(#[trigger] addrs[j] is Lan),
        },
    decreases addrs.len(),
{
    if addrs.len() > 0 {
        let init = addrs.drop_last();
        let l = addrs.len() - 1;
        if addrs.last() is Lan {
            assert(addrs[l] == addrs.last());
        } else {
            lemma_last_lan_is_last(init);
            match last_lan(init) {
                Some(s) => {
                    let k = choose|k: int|
                        0 <= k < init.len() && init[k] == s && s is Lan && (forall|j: int|
                            k < j < init.len() ==> !(#[trigger] init[j] is Lan));
                    assert(addrs[k] == init[k]);
                    assert forall|j: int| k < j < addrs.len() implies !(#[trigger] addrs[j] is Lan) by {
                        if j < l {
                            assert(addrs[j] == init[j]);
                        }
                    }
                },
                None => {
                    assert forall|j: int| 0 <= j < addrs.len() implies !(#[trigger] addrs[j] is Lan) by {
                        if j < l {
                            assert(addrs[j] == init[j]);
                        }
                    }
                },
            }
        }
    }
}

/// The address this host announces is always a link-local scope held by the adapter with
/// the smallest metric.
pub proof fn lemma_best_local_link_is_lan(nics: Seq<NicEntry>)
    ensures
        spec_best_local_link(nics) matches Ok(s) ==> s is Lan && (exists|b: int|
            is_min_metric_index(nics, b) && #[trigger] nics[b].1.1@.contains(s)),
{
    if nics.len() > 0 {
        lemma_min_metric_exists(nics);
        let b = choose|b: int| is_min_metric_index(nics, b);
        lemma_last_lan_is_lan(nics[b].1.1@);
    }
}

/// The address this host announces comes from an adapter whose metric is no larger than
/// any other adapter's, and strictly smaller than that of every adapter listed before it;
/// it is the last link-local address of that adapter.
pub proof fn lemma_best_link_has_least_metric(nics: Seq<NicEntry>)
    ensures
        spec_best_local_link(nics) matches Ok(s) ==> exists|b: int|
            0 <= b < nics.len() && (forall|j: int| 0 <= j < nics.len() ==> nics[b].1.0 <= #[trigger] nics[j].1.0)
                && (forall|j: int| 0 <= j < b ==> nics[b].1.0 < #[trigger] nics[j].1.0)
                && #[trigger] last_lan(nics[b].1.1@) == Some(s),
{
    if nics.len() > 0 {
        lemma_min_metric_exists(nics);
        let b = choose|b: int| is_min_metric_index(nics, b);
        assert(last_lan(nics[b].1.1@) == last_lan(nics[b].1.1@));
    }
}

/// Finds the first entry with the smallest metric.
pub(crate) fn min_metric_index(nics: &Vec<NicEntry>) -> (b: usize)
    requires
        nics.len() > 0,
    ensures
        is_min_metric_index(nics@, b as int),
{
    let mut b: usize = 0;
    let mut i: usize = 1;
    while i < nics.len()
        invariant
            1 <= i <= nics.len(),
            0 <= b < i,
            forall|j: int| 0 <= j < i ==> nics@[b as int].1.0 <= #[trigger] nics@[j].1.0,
            forall|j: int| 0 <= j < b ==> nics@[b as int].1.0 < #[trigger] nics@[j].1.0,
        decreases nics.len() - i,
    {
        if nics[i].1.0 < nics[b].1.0 {
            b = i;
        }
        i += 1;
    }
    b
}

/// A non-empty table has an entry with the smallest metric.
pub proof fn lemma_min_metric_exists(nics: Seq<NicEntry>)
    requires
        nics.len() > 0,
    ensures
        exists|b: int| is_min_metric_index(nics, b),
    decreases nics.len(),
{
    if nics.len() == 1 {
        assert(is_min_metric_index(nics, 0));
    } else {
        let init = nics.drop_last();
        lemma_min_metric_exists(init);
        let b = choose|b: int| is_min_metric_index(init, b);
        if nics.last().1.0 < nics[b].1.0 {
            let l = nics.len() - 1;
            assert forall|j: int| 0 <= j < nics.len() implies nics[l].1.0 <= #[trigger] nics[j].1.0 by {
                if j < l {
                    assert(init[j] == nics[j]);
                    assert(init[b].1.0 <= init[j].1.0);
                }
            }
            assert forall|j: int| 0 <= j < l implies nics[l].1.0 < #[trigger] nics[j].1.0 by {
                assert(init[j] == nics[j]);
                assert(init[b].1.0 <= init[j].1.0);
            }
            assert(is_min_metric_index(nics, l));
        } else {
            assert forall|j: int| 0 <= j < nics.len() implies nics[b].1.0 <= #[trigger] nics[j].1.0 by {
                if j < nics.len() - 1 {
                    assert(init[j] == nics[j]);
                }
            }
            assert forall|j: int| 0 <= j < b implies nics[b].1.0 < #[trigger] nics[j].1.0 by {
                assert(init[j] == nics[j]);
            }
            assert(is_min_metric_index(nics, b));
        }
    }
}

/// The minimal entry is unique.
proof fn lemma_min_metric_index_unique(nics: Seq<NicEntry>, a: int, b: int)
    requires
        is_min_metric_index(nics, a),
        is_min_metric_index(nics, b),
    ensures
        a == b,
{
    if a < b {
        assert(nics[b].1.0 < nics[a].1.0);
    } else if b < a {
        assert(nics[a].1.0 < nics[b].1.0);
    }
}

/// The last link-local scope of a list, found from the end.
pub(crate) fn find_last_lan(addrs: &Vec<Ipv6Scope>) -> (r: Option<Ipv6Scope>)
    ensures
        r == last_lan(addrs@),
{
    let mut i: usize = addrs.len();
    proof {
        assert(addrs@.take(i as int) =~= addrs@);
    }
    while i > 0
        invariant
            i <= addrs.len(),
            last_lan(addrs@) == last_lan(addrs@.take(i as int)),
        decreases i,
    {
        let s = addrs[i - 1];
        proof {
            assert(addrs@.take(i as int).last() == s);
            assert(addrs@.take(i as int).drop_last() =~= addrs@.take(i - 1));
        }
        if let Ipv6Scope::Lan { .. } = s {
            return Some(s);
        }
        i -= 1;
    }
    proof {
        assert(addrs@.take(0) =~= Seq::<Ipv6Scope>::empty());
    }
    None
}

/// A table entry as the contracts see it.
pub type NicEntryView = (u32, (u32, Seq<Ipv6Scope>));

pub open spec fn entry_view(e: NicEntry) -> NicEntryView {
    (e.0, (e.1.0, e.1.1@))
}

pub open spec fn entries_view(nics: Seq<NicEntry>) -> Seq<NicEntryView> {
    nics.map_values(|e: NicEntry| entry_view(e))
}

/// The adapter routes IPv6: one of its gateways is an IPv6 address.
pub open spec fn has_v6_gateway(gateways: Seq<IpAddr>) -> bool {
    exists|i: int| 0 <= i < gateways.len() && #[trigger] gateways[i] is V6
}

/// Whether an adapter routes IPv6 does not depend on where its IPv6 gateway stands: no
/// gateway means no IPv6 route, a single gateway routes IPv6 exactly when it is an IPv6
/// address, and joining two lists of gateways routes IPv6 exactly when either list does. In
/// particular an IPv4 gateway put in front of the others changes nothing.
pub proof fn lemma_v6_gateway_anywhere(g1: Seq<IpAddr>, g2: Seq<IpAddr>, x: IpAddr)
    ensures
        !has_v6_gateway(Seq::empty()),
        has_v6_gateway(seq![x]) <==> x is V6,
        has_v6_gateway(g1 + g2) <==> has_v6_gateway(g1) || has_v6_gateway(g2),
        x is V4 ==> (has_v6_gateway(seq![x] + g2) <==> has_v6_gateway(g2)),
{
    let g = g1 + g2;
    if has_v6_gateway(g) {
        let i = choose|i: int| 0 <= i < g.len() && #[trigger] g[i] is V6;
        if i < g1.len() {
            assert(g1[i] == g[i]);
        } else {
            assert(g2[i - g1.len()] == g[i]);
        }
    }
    if has_v6_gateway(g1) {
        let i = choose|i: int| 0 <= i < g1.len() && #[trigger] g1[i] is V6;
        assert(g[i] == g1[i]);
    }
    if has_v6_gateway(g2) {
        let i = choose|i: int| 0 <= i < g2.len() && #[trigger] g2[i] is V6;
        assert(g[g1.len() + i] == g2[i]);
    }
    assert(seq![x][0] == x);
    let h = seq![x] + g2;
    if has_v6_gateway(h) {
        let i = choose|i: int| 0 <= i < h.len() && #[trigger] h[i] is V6;
        if i > 0 {
            assert(g2[i - 1] == h[i]);
        }
    }
    if has_v6_gateway(g2) {
        let i = choose|i: int| 0 <= i < g2.len() && #[trigger] g2[i] is V6;
        assert(h[i + 1] == g2[i]);
    }
}

/// The IPv6 addresses of a list that have a scope on link `if_index`, as scopes, in order.
pub open spec fn scoped_addrs(ips: Seq<IpAddr>, if_index: u32) -> Seq<Ipv6Scope>
    decreases ips.len(),
{
    if ips.len() == 0 {
        Seq::empty()
    } else {
        let rest = scoped_addrs(ips.drop_last(), if_index);
        match ips.last() {
            IpAddr::V6(a) => match spec_classify(cast_mode_of(a), Some(if_index)) {
                Ok(s) => rest.push(s),
                Err(_) => rest,
            },
            IpAddr::V4(_) => rest,
        }
    }
}

/// Puts an entry into a table keyed by interface index: it replaces the entry with the
/// same index where there is one, else it is added at the end.
pub open spec fn upsert(table: Seq<NicEntryView>, e: NicEntryView) -> Seq<NicEntryView> {
    if exists|i: int| 0 <= i < table.len() && #[trigger] table[i].0 == e.0 {
        let i = choose|i: int| 0 <= i < table.len() && #[trigger] table[i].0 == e.0;
        table.update(i, e)
    } else {
        table.push(e)
    }
}

/// Putting an entry into a table with distinct indexes: afterwards the entry is in the
/// table, the indexes stay distinct, every entry with another index stays where it was, and
/// the table grows by one exactly when the index was new.
pub proof fn lemma_upsert_last_wins(table: Seq<NicEntryView>, e: NicEntryView)
    requires
        keys_distinct(table),
    ensures
        upsert(table, e).contains(e),
        keys_distinct(upsert(table, e)),
        forall|i: int| 0 <= i < table.len() && table[i].0 != e.0 ==> upsert(table, e)[i] == table[i],
        upsert(table, e).len() == table.len() + (if exists|i: int|
            0 <= i < table.len() && #[trigger] table[i].0 == e.0 {
            0int
        } else {
            1int
        }),
{
    let t = upsert(table, e);
    if exists|i: int| 0 <= i < table.len() && #[trigger] table[i].0 == e.0 {
        let k = choose|i: int| 0 <= i < table.len() && #[trigger] table[i].0 == e.0;
        assert(t[k] == e);
        assert forall|a: int, b: int|
            0 <= a < t.len() && 0 <= b < t.len() && a != b implies #[trigger] t[a].0
            != #[trigger] t[b].0 by {
            if a != k && b != k {
                assert(t[a] == table[a] && t[b] == table[b]);
            } else if a == k {
                assert(t[b] == table[b]);
                assert(table[k].0 != table[b].0);
            } else {
                assert(t[a] == table[a]);
                assert(table[k].0 != table[a].0);
            }
        }
        assert forall|i: int| 0 <= i < table.len() && table[i].0 != e.0 implies t[i]
            == table[i] by {
            assert(i != k);
        }
    } else {
        assert(t[table.len() as int] == e);
        assert forall|a: int, b: int|
            0 <= a < t.len() && 0 <= b < t.len() && a != b implies #[trigger] t[a].0
            != #[trigger] t[b].0 by {
            if a < table.len() && b < table.len() {
                assert(t[a] == table[a] && t[b] == table[b]);
            } else if a < table.len() {
                assert(t[a] == table[a]);
                assert(table[a].0 != e.0);
            } else {
                assert(t[b] == table[b]);
                assert(table[b].0 != e.0);
            }
        }
        assert forall|i: int| 0 <= i < table.len() && table[i].0 != e.0 implies t[i]
            == table[i] by {
        }
    }
}

/// The scoped addresses of one address: an IPv4 address gives none; an IPv6 one gives its
/// scope on link `if_index` when it has one; and the scoped addresses of two lists joined
/// are those of the first followed by those of the second.
pub proof fn lemma_scoped_addrs_by_address(ips: Seq<IpAddr>, more: Seq<IpAddr>, x: IpAddr, if_index: u32)
    ensures
        scoped_addrs(seq![x], if_index) == (match x {
            IpAddr::V6(a) => match spec_classify(cast_mode_of(a), Some(if_index)) {
                Ok(s) => seq![s],
                Err(_) => Seq::<Ipv6Scope>::empty(),
            },
            IpAddr::V4(_) => Seq::<Ipv6Scope>::empty(),
        }),
        scoped_addrs(ips + more, if_index) == scoped_addrs(ips, if_index) + scoped_addrs(
            more,
            if_index,
        ),
    decreases more.len(),
{
    assert(seq![x].drop_last() =~= Seq::<IpAddr>::empty());
    assert(seq![x].last() == x);
    assert(scoped_addrs(Seq::<IpAddr>::empty(), if_index) == Seq::<Ipv6Scope>::empty());
    if let IpAddr::V6(a) = x {
        if let Ok(sc) = spec_classify(cast_mode_of(a), Some(if_index)) {
            assert(Seq::<Ipv6Scope>::empty().push(sc) =~= seq![sc]);
        }
    }
    let a = scoped_addrs(ips, if_index);
    if more.len() == 0 {
        assert(ips + more =~= ips);
        assert(a + scoped_addrs(more, if_index) =~= a);
    } else {
        let init = more.drop_last();
        lemma_scoped_addrs_by_address(ips, init, x, if_index);
        assert((ips + more).drop_last() =~= ips + init);
        assert((ips + more).last() == more.last());
        let b = scoped_addrs(init, if_index);
        match more.last() {
            IpAddr::V6(v) => match spec_classify(cast_mode_of(v), Some(if_index)) {
                Ok(sc) => {
                    assert((a + b).push(sc) =~= a + b.push(sc));
                },
                Err(_) => {},
            },
            IpAddr::V4(_) => {},
        }
    }
}

/// The table built from the adapters, in order: an adapter with an IPv6 gateway and at
/// least one scoped IPv6 address gives the entry (interface index, (metric, addresses)).
pub open spec fn nics_of(adapters: Seq<Adapter>) -> Seq<NicEntryView>
    decreases adapters.len(),
{
    if adapters.len() == 0 {
        Seq::empty()
    } else {
        let rest = nics_of(adapters.drop_last());
        let a = adapters.last();
        let addrs = scoped_addrs(a.ip_addresses@, a.ipv6_if_index);
        if has_v6_gateway(a.gateways@) && addrs.len() > 0 {
            upsert(rest, (a.ipv6_if_index, (a.ipv6_metric, addrs)))
        } else {
            rest
        }
    }
}

/// Interface indexes appear at most once in the table.
pub open spec fn keys_distinct(table: Seq<NicEntryView>) -> bool {
    forall|i: int, j: int|
        0 <= i < table.len() && 0 <= j < table.len() && i != j ==> #[trigger] table[i].0
            != #[trigger] table[j].0
}

fn has_v6_gateway_exec(gateways: &Vec<IpAddr>) -> (r: bool)
    ensures
        r == has_v6_gateway(gateways@),
{
    let mut i: usize = 0;
    while i < gateways.len()
        invariant
            i <= gateways.len(),
            forall|j: int| 0 <= j < i ==> !(#[trigger] gateways@[j] is V6),
        decreases gateways.len() - i,
    {
        if let IpAddr::V6(_) = gateways[i] {
            return true;
        }
        i += 1;
    }
    false
}

fn scoped_addrs_exec(ips: &Vec<IpAddr>, if_index: u32) -> (r: Vec<Ipv6Scope>)
    ensures
        r@ == scoped_addrs(ips@, if_index),
{
    let mut out: Vec<Ipv6Scope> = Vec::new();
    let mut i: usize = 0;
    while i < ips.len()
        invariant
            i <= ips.len(),
            out@ == scoped_addrs(ips@.take(i as int), if_index),
        decreases ips.len() - i,
    {
        proof {
            assert(ips@.take(i + 1).drop_last() =~= ips@.take(i as int));
            assert(ips@.take(i + 1).last() == ips@[i as int]);
        }
        if let IpAddr::V6(a) = ips[i] {
            let c = CastMode::try_from_addr(a).unwrap();
            if let Ok(s) = Ipv6Scope::try_from_cast_mode(c, Some(if_index)) {
                out.push(s);
            }
        }
        i += 1;
    }
    proof {
        assert(ips@.take(ips@.len() as int) =~= ips@);
    }
    out
}

/// Puts an entry into the table, replacing the one with the same index.
fn upsert_exec(table: &mut Vec<NicEntry>, e: NicEntry)
    requires
        keys_distinct(entries_view(old(table)@)),
    ensures
        entries_view(final(table)@) == upsert(entries_view(old(table)@), entry_view(e)),
        keys_distinct(entries_view(final(table)@)),
{
    let ghost tv = entries_view(table@);
    let mut i: usize = 0;
    while i < table.len()
        invariant
            i <= table.len(),
            *table == *old(table),
            tv == entries_view(table@),
            keys_distinct(tv),
            forall|j: int| 0 <= j < i ==> (#[trigger] table@[j]).0 != e.0,
        decreases table.len() - i,
    {
        if table[i].0 == e.0 {
            proof {
                assert(tv[i as int].0 == e.0);
                let k = choose|k: int| 0 <= k < tv.len() && #[trigger] tv[k].0 == e.0;
                assert(k == i) by {
                    if k != i {
                        assert(tv[k].0 != tv[i as int].0);
                    }
                }
            }
            table.set(i, e);
            proof {
                assert(entries_view(table@) =~= tv.update(i as int, entry_view(e)));
                let nv = entries_view(table@);
                assert forall|a: int, b: int|
                    0 <= a < nv.len() && 0 <= b < nv.len() && a != b implies #[trigger] nv[a].0
                    != #[trigger] nv[b].0 by {
                    if a != i && b != i {
                        assert(nv[a] == tv[a] && nv[b] == tv[b]);
                    } else if a == i {
                        assert(nv[b] == tv[b]);
                        assert(tv[b].0 != tv[i as int].0);
                    } else {
                        assert(nv[a] == tv[a]);
                        assert(tv[a].0 != tv[i as int].0);
                    }
                }
            }
            return;
        }
        i += 1;
    }
    proof {
        assert(!(exists|k: int| 0 <= k < tv.len() && #[trigger] tv[k].0 == e.0)) by {
            if exists|k: int| 0 <= k < tv.len() && #[trigger] tv[k].0 == e.0 {
                let k = choose|k: int| 0 <= k < tv.len() && #[trigger] tv[k].0 == e.0;
                assert(table@[k].0 == e.0);
            }
        }
    }
    table.push(e);
    proof {
        assert(entries_view(table@) =~= tv.push(entry_view(e)));
        let nv = entries_view(table@);
        assert forall|a: int, b: int|
            0 <= a < nv.len() && 0 <= b < nv.len() && a != b implies #[trigger] nv[a].0
            != #[trigger] nv[b].0 by {
            if a < tv.len() && b < tv.len() {
                assert(nv[a] == tv[a] && nv[b] == tv[b]);
            } else if a < tv.len() {
                assert(nv[a] == tv[a]);
                assert(table@[a].0 != e.0);
            } else {
                assert(nv[b] == tv[b]);
                assert(table@[b].0 != e.0);
            }
        }
    }
}

/// Builds the adapter table from what the operating system reports: adapters that route
/// IPv6 and have scoped IPv6 addresses, keyed by interface index.
pub fn nics_from_adapters(adapters: &Vec<Adapter>) -> (r: Vec<NicEntry>)
    ensures
        entries_view(r@) == nics_of(adapters@),
        keys_distinct(entries_view(r@)),
{
    let mut out: Vec<NicEntry> = Vec::new();
    let mut i: usize = 0;
    proof {
        assert(entries_view(out@) =~= Seq::<NicEntryView>::empty());
    }
    while i < adapters.len()
        invariant
            i <= adapters.len(),
            entries_view(out@) == nics_of(adapters@.take(i as int)),
            keys_distinct(entries_view(out@)),
        decreases adapters.len() - i,
    {
        proof {
            assert(adapters@.take(i + 1).drop_last() =~= adapters@.take(i as int));
            assert(adapters@.take(i + 1).last() == adapters@[i as int]);
        }
        let a = &adapters[i];
        if has_v6_gateway_exec(&a.gateways) {
            let addrs = scoped_addrs_exec(&a.ip_addresses, a.ipv6_if_index);
            if addrs.len() > 0 {
                upsert_exec(&mut out, (a.ipv6_if_index, (a.ipv6_metric, addrs)));
            }
        }
        i += 1;
    }
    proof {
        assert(adapters@.take(adapters@.len() as int) =~= adapters@);
    }
    out
}

impl Env {
    /// The settings for this host, from its adapters: a freshly drawn identifier, the adapter
    /// table, the groups `ff12::1` (link) and `ff1e::1` (global), and port 5555.
    pub fn from_adapters(adapters: &Vec<Adapter>) -> (r: Env)
        ensures
            is_fresh_id(r.host_id@),
            entries_view(r.nics@) == nics_of(adapters@),
            r.multicast_local.segments@ == seq![0xff12u16, 0, 0, 0, 0, 0, 0, 1],
            r.multicast_global.segments@ == seq![0xff1eu16, 0, 0, 0, 0, 0, 0, 1],
            r.port == 5555,
    {
        Env {
            host_id: Uid::from(random_host_id()),
            nics: nics_from_adapters(adapters),
            multicast_local: Ipv6Addr::new(0xff12, 0, 0, 0, 0, 0, 0, 1),
            multicast_global: Ipv6Addr::new(0xff1e, 0, 0, 0, 0, 0, 0, 1),
            port: 5555,
        }
    }

    /// Some adapter routes IPv6.
    pub fn is_ipv6_route_available(&self) -> (r: bool)
        ensures
            r == (self.nics@.len() > 0),
    {
        self.nics.len() > 0
    }

    /// The link-local scope this host announces.
    pub fn best_local_link(&self) -> (r: Result<Ipv6Scope, EnvError>)
        ensures
            r == spec_best_local_link(self.nics@),
    {
        if self.nics.len() == 0 {
            return Err(EnvError::RouteUnavailable);
        }
        let b = min_metric_index(&self.nics);
        proof {
            let c = choose|c: int| is_min_metric_index(self.nics@, c);
            lemma_min_metric_index_unique(self.nics@, b as int, c);
        }
        match find_last_lan(&self.nics[b].1.1) {
            Some(s) => Ok(s),
            None => Err(EnvError::BestMetricNicNotFound),
        }
    }
}

} // verus!
