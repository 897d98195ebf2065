use crate::addr_v6::ip::{spec_is_unicast_global, spec_is_unicast_link_local, IpAddr};
use vstd::prelude::*;

verus! {

/// Names of the Wi-Fi and Ethernet interfaces worth binding to (including the virtual
/// Ethernet of WSL), as a case-insensitive, whitespace-free anchored pattern.
pub const INTEREST_IFACE_NAME_PATTERN_STR: &'static str = r"(?xi)
^
(?:
    # WiFi interfaces (traditional + predictable)
    (?:
        w(?:i[-]?fi|lan)\d*            # Traditional: wlan0, wifi0
        |wl[psx]\w+                    # Linux wireless: wlp0s0, wlx001122
        |ww\d+                         # WWAN interfaces
        |(?:iwn|urtw|bwn|ral|run)\d+   # BSD wireless
        |(?:qca|ath|rtl|rtw|mt76|brcm|iw[lmsx])\w+  # Wireless drivers
        |awdl\d+                       # macOS AWDL
    )
  |
    # Ethernet interfaces (traditional + predictable)
    (?:
        vEthernet.+                    # WSL for test
        |eth\d+                        # Traditional Ethernet
        |en(?:                         # Predictable naming:
            [op]\w+                    # eno1 (onboard), enp0s0 (PCI)
            |s\d+                      # ens3 (hotplug slot)
            |x[0-9a-f]{12}             # enx001122334455 (MAC-based)
            |\d+                       # en0 (macOS/fallback)
        )
        |(?:e1000|igb|r816)\w+         # Ethernet drivers
        |(?:em|re|bge|xl|cxgb)\d+      # BSD Ethernet
    )
)
$";

/// A network interface that is up, as the operating system reports it.
#[derive(Debug)]
pub struct NetIface {
    pub name: String,
    pub address: IpAddr,
    pub scope_id: Option<u32>,
}

impl Clone for NetIface {
    fn clone(&self) -> (r: Self)
        ensures
            r == *self,
    {
        NetIface { name: self.name.clone(), address: self.address, scope_id: self.scope_id }
    }
}

/// Whether `regex::Regex::new` accepts the pattern.
pub uninterp spec fn regex_accepts(pattern: Seq<char>) -> bool;

/// Whether the regex compiled from the pattern finds a match in the haystack.
pub uninterp spec fn regex_finds(pattern: Seq<char>, haystack: Seq<char>) -> bool;

/// `regex::Regex::new(pattern)`, then `Regex::is_match(haystack)` on the regex it built:
/// `None` when the pattern is refused, else whether there is a match. The two calls stay
/// together because a built `Regex` is opaque here: nothing could tie a later match to the
/// pattern it was built from. What the pattern matches is named, not stated.
#[verifier::external_body]
pub(crate) fn regex_is_match(pattern: &str, haystack: &str) -> (r: Option<bool>)
    ensures
        r is Some <==> regex_accepts(pattern@),
        r matches Some(b) ==> b == regex_finds(pattern@, haystack@),
{
    match regex::Regex::new(pattern) {
        Ok(re) => Some(re.is_match(haystack)),
        Err(_) => None,
    }
}

/// The interface has an IPv6 address of the wanted reach: global unicast when `global`,
/// link-local unicast otherwise.
pub open spec fn iface_has_reach(iface: NetIface, global: bool) -> bool {
    match iface.address {
        IpAddr::V6(a) => if global {
            spec_is_unicast_global(a)
        } else {
            spec_is_unicast_link_local(a)
        },
        IpAddr::V4(_) => false,
    }
}

/// The interface's name matches the pattern and it has the wanted reach.
pub open spec fn iface_preferred(pattern: Seq<char>, iface: NetIface, global: bool) -> bool {
    &&& regex_accepts(pattern)
    &&& regex_finds(pattern, iface.name@)
    &&& iface_has_reach(iface, global)
}

/// The first preferred interface of the list, if any.
pub open spec fn first_preferred(
    pattern: Seq<char>,
    list: Seq<NetIface>,
    global: bool,
) -> Option<NetIface>
    decreases list.len(),
{
    if list.len() == 0 {
        None
    } else if iface_preferred(pattern, list[0], global) {
        Some(list[0])
    } else {
        first_preferred(pattern, list.drop_first(), global)
    }
}

/// The interface picked from a list is one of its preferred interfaces, and no interface
/// before it is preferred; when none is picked, no interface of the list is preferred.
pub proof fn lemma_first_preferred_is_first(pattern: Seq<char>, list: Seq<NetIface>, global: bool)
    ensures
        match first_preferred(pattern, list, global) {
            Some(i) => exists|k: int|
                0 <= k < list.len() && list[k] == i && iface_preferred(pattern, i, global) && (
                forall|j: int| 0 <= j < k ==> !iface_preferred(pattern, #[trigger] list[j], global)),
            None => forall|j: int|
                0 <= j < list.len() ==> !iface_preferred(pattern, #[trigger] list[j], global),
        },
    decreases list.len(),
{
    if list.len() > 0 {
        let rest = list.drop_first();
        lemma_first_preferred_is_first(pattern, rest, global);
        if iface_preferred(pattern, list[0], global) {
            assert(list[0] == list[0]);
        } else {
            match first_preferred(pattern, rest, global) {
                Some(i) => {
                    let k = choose|k: int|
                        0 <= k < rest.len() && rest[k] == i && iface_preferred(pattern, i, global)
                            && (forall|j: int|
                            0 <= j < k ==> !iface_preferred(pattern, #[trigger] rest[j], global));
                    assert(list[k + 1] == i);
                    assert forall|j: int| 0 <= j < k + 1 implies !iface_preferred(
                        pattern,
                        #[trigger] list[j],
                        global,
                    ) by {
                        if j > 0 {
                            assert(list[j] == rest[j - 1]);
                        }
                    }
                },
                None => {
                    assert forall|j: int| 0 <= j < list.len() implies !iface_preferred(
                        pattern,
                        #[trigger] list[j],
                        global,
                    ) by {
                        if j > 0 {
                            assert(list[j] == rest[j - 1]);
                        }
                    }
                },
            }
        }
    }
}

/// The interface picked for the link has a link-local unicast IPv6 address, and the one
/// picked for the wider network a global unicast IPv6 address; either way it is one of the
/// listed interfaces and its name matches the pattern.
pub proof fn lemma_preferred_has_reach(pattern: Seq<char>, list: Seq<NetIface>, global: bool)
    ensures
        first_preferred(pattern, list, global) matches Some(i) ==> {
            &&& list.contains(i)
            &&& regex_finds(pattern, i.name@)
            &&& i.address matches IpAddr::V6(a) && (if global {
                spec_is_unicast_global(a)
            } else {
                spec_is_unicast_link_local(a)
            })
        },
{
    lemma_first_preferred_is_first(pattern, list, global);
    if let Some(i) = first_preferred(pattern, list, global) {
        let k = choose|k: int|
            0 <= k < list.len() && list[k] == i && iface_preferred(pattern, i, global) && (
            forall|j: int| 0 <= j < k ==> !iface_preferred(pattern, #[trigger] list[j], global));
        assert(list[k] == i);
    }
}

pub(crate) fn iface_has_reach_exec(iface: &NetIface, global: bool) -> (r: bool)
    ensures
        r == iface_has_reach(*iface, global),
{
    match iface.address {
        IpAddr::V6(a) => if global {
            a.is_unicast_global()
        } else {
            a.is_unicast_link_local()
        },
        IpAddr::V4(_) => false,
    }
}

proof fn lemma_first_preferred_skip(pattern: Seq<char>, list: Seq<NetIface>, global: bool, i: int)
    requires
        0 <= i <= list.len(),
        forall|j: int| 0 <= j < i ==> !iface_preferred(pattern, #[trigger] list[j], global),
    ensures
        first_preferred(pattern, list, global) == first_preferred(pattern, list.skip(i), global),
    decreases i,
{
    if i > 0 {
        assert(!iface_preferred(pattern, list[0], global));
        assert(list.drop_first().skip(i - 1) =~= list.skip(i));
        assert forall|j: int| 0 <= j < i - 1 implies !iface_preferred(
            pattern,
            #[trigger] list.drop_first()[j],
            global,
        ) by {
            assert(list.drop_first()[j] == list[j + 1]);
        }
        lemma_first_preferred_skip(pattern, list.drop_first(), global, i - 1);
    } else {
        assert(list.skip(0) =~= list);
    }
}

/// The first interface of the list whose name matches `pattern` and that has an address of
/// the wanted reach (global unicast when `global`, link-local unicast otherwise); `None`
/// when the list could not be had, or no interface qualifies.
pub fn prefer_by_pattern(pattern: &str, up_list: &Option<Vec<NetIface>>, global: bool) -> (r:
    Option<NetIface>)
    ensures
        r == (match *up_list {
            Some(list) => first_preferred(pattern@, list@, global),
            None => None,
        }),
        r matches Some(i) ==> i.address matches IpAddr::V6(a) && (if global {
            spec_is_unicast_global(a)
        } else {
            spec_is_unicast_link_local(a)
        }),
{
    proof {
        if let Some(list) = up_list {
            lemma_preferred_has_reach(pattern@, list@, global);
        }
    }
    if up_list.is_none() {
        return None;
    }
    let list = up_list.as_ref().unwrap();
    let mut i: usize = 0;
    while i < list.len()
        invariant
            0 <= i <= list.len(),
            *up_list == Some(*list),
            forall|j: int| 0 <= j < i ==> !iface_preferred(pattern@, #[trigger] list@[j], global),
        decreases list.len() - i,
    {
        let iface = &list[i];
        let matched = match regex_is_match(pattern, iface.name.as_str()) {
            Some(b) => b,
            None => false,
        };
        if matched && iface_has_reach_exec(iface, global) {
            proof {
                lemma_first_preferred_skip(pattern@, list@, global, i as int);
                assert(list@.skip(i as int)[0] == list@[i as int]);
                assert(iface_preferred(pattern@, list@[i as int], global));
                assert(first_preferred(pattern@, list@.skip(i as int), global) == Some(
                    list@[i as int],
                ));
            }
            let chosen = iface.clone();
            assert(chosen == list@[i as int]);
            assert(first_preferred(pattern@, list@, global) == Some(chosen));
            return Some(chosen);
        }
        i += 1;
    }
    proof {
        lemma_first_preferred_skip(pattern@, list@, global, i as int);
        assert(list@.skip(i as int).len() == 0);
    }
    None
}

/// The first up interface named like a Wi-Fi or Ethernet interface, with a global unicast
/// address when `global_or_linklocal`, else with a link-local one.
pub fn get_prefer(up_list: &Option<Vec<NetIface>>, global_or_linklocal: bool) -> (r: Option<
    NetIface,
>)
    ensures
        r == (match *up_list {
            Some(list) => first_preferred(INTEREST_IFACE_NAME_PATTERN_STR@, list@, global_or_linklocal),
            None => None,
        }),
        r matches Some(i) ==> i.address matches IpAddr::V6(a) && (if global_or_linklocal {
            spec_is_unicast_global(a)
        } else {
            spec_is_unicast_link_local(a)
        }),
{
    let r = prefer_by_pattern(INTEREST_IFACE_NAME_PATTERN_STR, up_list, global_or_linklocal);
    proof {
        if let Some(list) = up_list {
            lemma_preferred_has_reach(INTEREST_IFACE_NAME_PATTERN_STR@, list@, global_or_linklocal);
        }
    }
    r
}

/// The interfaces chosen for the link (first) and for the wider network (second).
pub struct NicView {
    pub cached_interface: [Option<NetIface>; 2],
}

impl NicView {
    /// Chooses the link-local interface and the global one from the same list.
    pub fn from_up_list(up_list: &Option<Vec<NetIface>>) -> (r: Self)
        ensures
            r.cached_interface@ == seq![
                get_prefer_spec(up_list, false),
                get_prefer_spec(up_list, true),
            ],
    {
        let lan = get_prefer(up_list, false);
        let wan = get_prefer(up_list, true);
        let r = NicView { cached_interface: [lan, wan] };
        proof {
            assert(r.cached_interface@ =~= seq![
                get_prefer_spec(up_list, false),
                get_prefer_spec(up_list, true),
            ]);
        }
        r
    }
}

/// What `get_prefer` picks.
pub open spec fn get_prefer_spec(up_list: &Option<Vec<NetIface>>, global: bool) -> Option<NetIface> {
    match up_list {
        Some(list) => first_preferred(INTEREST_IFACE_NAME_PATTERN_STR@, list@, global),
        None => None,
    }
}

} // verus!
