use super::nic::{first_preferred, prefer_by_pattern, NetIface};
use crate::addr_v6::ip::{spec_is_unicast_global, spec_is_unicast_link_local, IpAddr};
use vstd::prelude::*;

verus! {

/// Names of the Wi-Fi and Ethernet interfaces worth binding to, as a case-insensitive,
/// whitespace-free anchored pattern.
pub const INTEREST_IFACE_NAME_PATTERN_STR: &'static str = r"(?xi)
^
(?:
    # WiFi interfaces (traditional + predictable)
    (?:
        w(?:i[-]?fi|lan)\d*            # Traditional: wlan0, wifi0
        |wl[psx]\w+                    # Linux wireless: wlp0s0, wlx001122
        |ww\d+                         # WWAN interfaces
        |(?:iwn|urtw|bwn|ral|run)\d+   # BSD wireless
        |(?:qca|ath|rtl|rtw|mt76|brcm|iw[lmsx])\w+  # Wireless drivers
        |awdl\d+                       # macOS AWDL
    )
  |
    # Ethernet interfaces (traditional + predictable)
    (?:
        eth\d+                         # Traditional Ethernet
        |en(?:                         # Predictable naming:
            [op]\w+                    # eno1 (onboard), enp0s0 (PCI)
            |s\d+                      # ens3 (hotplug slot)
            |x[0-9a-f]{12}             # enx001122334455 (MAC-based)
            |\d+                       # en0 (macOS/fallback)
        )
        |(?:e1000|igb|r816)\w+         # Ethernet drivers
        |(?:em|re|bge|xl|cxgb)\d+      # BSD Ethernet
    )
)
$";

/// The link-local (first) and global (second) interfaces the protocol uses.
pub type LanWan = (Option<NetIface>, Option<NetIface>);

/// What `NetworkInterfaceView::get_prefer` picks.
pub open spec fn view_prefer_spec(up_list: &Option<Vec<NetIface>>, global: bool) -> Option<
    NetIface,
> {
    match *up_list {
        Some(list) => first_preferred(INTEREST_IFACE_NAME_PATTERN_STR@, list@, global),
        None => None,
    }
}

/// The interfaces currently in use.
pub struct NetworkInterfaceView {
    cached_interface: LanWan,
}

impl View for NetworkInterfaceView {
    type V = LanWan;

    closed spec fn view(&self) -> LanWan {
        self.cached_interface
    }
}

impl NetworkInterfaceView {
    /// Replaces both interfaces.
    pub fn set(&mut self, lan: Option<NetIface>, wan: Option<NetIface>)
        ensures
            final(self)@ == (lan, wan),
    {
        self.cached_interface = (lan, wan);
    }

    /// The interfaces in use.
    pub fn get(&self) -> (r: &LanWan)
        ensures
            *r == self@,
    {
        &self.cached_interface
    }

    /// The first up interface named like a Wi-Fi or Ethernet interface, with a global unicast
    /// address when `global_or_linklocal`, else with a link-local one.
    pub fn get_prefer(up_list: &Option<Vec<NetIface>>, global_or_linklocal: bool) -> (r: Option<
        NetIface,
    >)
        ensures
            r == view_prefer_spec(up_list, global_or_linklocal),
            r matches Some(i) ==> i.address matches IpAddr::V6(a) && (if global_or_linklocal {
                spec_is_unicast_global(a)
            } else {
                spec_is_unicast_link_local(a)
            }),
    {
        prefer_by_pattern(INTEREST_IFACE_NAME_PATTERN_STR, up_list, global_or_linklocal)
    }

    /// The view chosen from the interfaces that are up: link-local first, then global.
    pub fn from_up_list(up_list: &Option<Vec<NetIface>>) -> (r: Self)
        ensures
            r@ == (view_prefer_spec(up_list, false), view_prefer_spec(up_list, true)),
    {
        NetworkInterfaceView {
            cached_interface: (Self::get_prefer(up_list, false), Self::get_prefer(up_list, true)),
        }
    }
}

} // verus!
