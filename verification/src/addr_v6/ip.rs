use vstd::prelude::*;

verus! {

/// An IPv6 address held as its eight 16-bit segments, most significant first.
#[derive(Clone, Copy, Debug, PartialEq, Eq, Hash)]
pub struct Ipv6Addr {
    pub segments: [u16; 8],
}

/// An IPv4 address held as its four octets.
#[derive(Clone, Copy, Debug, PartialEq, Eq, Hash)]
pub struct Ipv4Addr {
    pub octets: [u8; 4],
}

/// An IP address of either family.
#[derive(Clone, Copy, Debug, PartialEq, Eq, Hash)]
pub enum IpAddr {
    V4(Ipv4Addr),
    V6(Ipv6Addr),
}

/// An IPv6 socket address: address, port, flow label and scope identifier.
#[derive(Clone, Copy, Debug, PartialEq, Eq, Hash)]
pub struct SocketAddrV6 {
    pub ip: Ipv6Addr,
    pub port: u16,
    pub flowinfo: u32,
    pub scope_id: u32,
}

/// A socket address of either family (the IPv4 one is only carried along).
#[derive(Clone, Copy, Debug, PartialEq, Eq, Hash)]
pub enum SocketAddr {
    V4 { ip: Ipv4Addr, port: u16 },
    V6(SocketAddrV6),
}

/// The scope field of a multicast address (RFC 7346).
#[derive(Clone, Copy, Debug, PartialEq, Eq, Hash)]
pub enum Ipv6MulticastScope {
    InterfaceLocal,
    LinkLocal,
    RealmLocal,
    AdminLocal,
    SiteLocal,
    OrganizationLocal,
    Global,
}

/// Segment `i` of an address.
pub open spec fn seg(a: Ipv6Addr, i: int) -> u16 {
    a.segments@[i]
}

/// `::` (all bits zero).
pub open spec fn spec_is_unspecified(a: Ipv6Addr) -> bool {
    forall|i: int| 0 <= i < 8 ==> #[trigger] seg(a, i) == 0
}

/// `::1`.
pub open spec fn spec_is_loopback(a: Ipv6Addr) -> bool {
    &&& forall|i: int| 0 <= i < 7 ==> #[trigger] seg(a, i) == 0
    &&& seg(a, 7) == 1
}

/// `ff00::/8`.
pub open spec fn spec_is_multicast(a: Ipv6Addr) -> bool {
    seg(a, 0) & 0xff00u16 == 0xff00u16
}

/// Every address that is not multicast.
pub open spec fn spec_is_unicast(a: Ipv6Addr) -> bool {
    !spec_is_multicast(a)
}

/// `fe80::/10`.
pub open spec fn spec_is_unicast_link_local(a: Ipv6Addr) -> bool {
    seg(a, 0) & 0xffc0u16 == 0xfe80u16
}

/// `fc00::/7` (RFC 4193).
pub open spec fn spec_is_unique_local(a: Ipv6Addr) -> bool {
    seg(a, 0) & 0xfe00u16 == 0xfc00u16
}

/// `2001:db8::/32` (RFC 3849) and `3fff::/20` (RFC 9637).
pub open spec fn spec_is_documentation(a: Ipv6Addr) -> bool {
    (seg(a, 0) == 0x2001u16 && seg(a, 1) == 0x0db8u16) || (seg(a, 0) == 0x3fffu16 && seg(a, 1)
        <= 0x0fffu16)
}

/// `2001:2::/48` (RFC 5180).
pub open spec fn spec_is_benchmarking(a: Ipv6Addr) -> bool {
    seg(a, 0) == 0x2001u16 && seg(a, 1) == 0x0002u16 && seg(a, 2) == 0
}

/// A unicast address that is none of the special-purpose unicast kinds.
pub open spec fn spec_is_unicast_global(a: Ipv6Addr) -> bool {
    &&& spec_is_unicast(a)
    &&& !spec_is_loopback(a)
    &&& !spec_is_unicast_link_local(a)
    &&& !spec_is_unique_local(a)
    &&& !spec_is_unspecified(a)
    &&& !spec_is_documentation(a)
    &&& !spec_is_benchmarking(a)
}

/// The scope of a multicast address, read from the low four bits of its first segment.
pub open spec fn spec_multicast_scope(a: Ipv6Addr) -> Option<Ipv6MulticastScope> {
    if !spec_is_multicast(a) {
        None
    } else {
        let s = seg(a, 0) & 0x000fu16;
        if s == 1 {
            Some(Ipv6MulticastScope::InterfaceLocal)
        } else if s == 2 {
            Some(Ipv6MulticastScope::LinkLocal)
        } else if s == 3 {
            Some(Ipv6MulticastScope::RealmLocal)
        } else if s == 4 {
            Some(Ipv6MulticastScope::AdminLocal)
        } else if s == 5 {
            Some(Ipv6MulticastScope::SiteLocal)
        } else if s == 8 {
            Some(Ipv6MulticastScope::OrganizationLocal)
        } else if s == 14 {
            Some(Ipv6MulticastScope::Global)
        } else {
            None
        }
    }
}

impl Ipv6Addr {
    /// Builds an address from its eight segments.
    pub fn new(a: u16, b: u16, c: u16, d: u16, e: u16, f: u16, g: u16, h: u16) -> (r: Ipv6Addr)
        ensures
            r.segments@ == seq![a, b, c, d, e, f, g, h],
    {
        Ipv6Addr { segments: [a, b, c, d, e, f, g, h] }
    }

    pub fn is_unspecified(&self) -> (r: bool)
        ensures
            r == spec_is_unspecified(*self),
    {
        let s = self.segments;
        let r = s[0] == 0 && s[1] == 0 && s[2] == 0 && s[3] == 0 && s[4] == 0 && s[5] == 0 && s[6]
            == 0 && s[7] == 0;
        assert(r ==> spec_is_unspecified(*self));
        assert(spec_is_unspecified(*self) ==> seg(*self, 0) == 0 && seg(*self, 1) == 0 && seg(
            *self,
            2,
        ) == 0 && seg(*self, 3) == 0 && seg(*self, 4) == 0 && seg(*self, 5) == 0 && seg(*self, 6)
            == 0 && seg(*self, 7) == 0);
        r
    }

    pub fn is_loopback(&self) -> (r: bool)
        ensures
            r == spec_is_loopback(*self),
    {
        let s = self.segments;
        let r = s[0] == 0 && s[1] == 0 && s[2] == 0 && s[3] == 0 && s[4] == 0 && s[5] == 0 && s[6]
            == 0 && s[7] == 1;
        assert(r ==> spec_is_loopback(*self));
        assert(spec_is_loopback(*self) ==> seg(*self, 0) == 0 && seg(*self, 1) == 0 && seg(
            *self,
            2,
        ) == 0 && seg(*self, 3) == 0 && seg(*self, 4) == 0 && seg(*self, 5) == 0 && seg(*self, 6)
            == 0);
        r
    }

    pub fn is_multicast(&self) -> (r: bool)
        ensures
            r == spec_is_multicast(*self),
    {
        self.segments[0] & 0xff00 == 0xff00
    }

    pub fn is_unicast(&self) -> (r: bool)
        ensures
            r == spec_is_unicast(*self),
    {
        !self.is_multicast()
    }

    pub fn is_unicast_link_local(&self) -> (r: bool)
        ensures
            r == spec_is_unicast_link_local(*self),
    {
        self.segments[0] & 0xffc0 == 0xfe80
    }

    pub fn is_unique_local(&self) -> (r: bool)
        ensures
            r == spec_is_unique_local(*self),
    {
        self.segments[0] & 0xfe00 == 0xfc00
    }

    pub fn is_documentation(&self) -> (r: bool)
        ensures
            r == spec_is_documentation(*self),
    {
        (self.segments[0] == 0x2001 && self.segments[1] == 0x0db8) || (self.segments[0] == 0x3fff
            && self.segments[1] <= 0x0fff)
    }

    pub fn is_benchmarking(&self) -> (r: bool)
        ensures
            r == spec_is_benchmarking(*self),
    {
        self.segments[0] == 0x2001 && self.segments[1] == 0x0002 && self.segments[2] == 0
    }

    pub fn is_unicast_global(&self) -> (r: bool)
        ensures
            r == spec_is_unicast_global(*self),
    {
        self.is_unicast() && !self.is_loopback() && !self.is_unicast_link_local()
            && !self.is_unique_local() && !self.is_unspecified() && !self.is_documentation()
            && !self.is_benchmarking()
    }

    pub fn multicast_scope(&self) -> (r: Option<Ipv6MulticastScope>)
        ensures
            r == spec_multicast_scope(*self),
    {
        if !self.is_multicast() {
            return None;
        }
        let s = self.segments[0] & 0x000f;
        if s == 1 {
            Some(Ipv6MulticastScope::InterfaceLocal)
        } else if s == 2 {
            Some(Ipv6MulticastScope::LinkLocal)
        } else if s == 3 {
            Some(Ipv6MulticastScope::RealmLocal)
        } else if s == 4 {
            Some(Ipv6MulticastScope::AdminLocal)
        } else if s == 5 {
            Some(Ipv6MulticastScope::SiteLocal)
        } else if s == 8 {
            Some(Ipv6MulticastScope::OrganizationLocal)
        } else if s == 14 {
            Some(Ipv6MulticastScope::Global)
        } else {
            None
        }
    }
}

impl SocketAddrV6 {
    /// Builds a socket address from its four parts.
    pub fn new(ip: Ipv6Addr, port: u16, flowinfo: u32, scope_id: u32) -> (r: SocketAddrV6)
        ensures
            r == (SocketAddrV6 { ip, port, flowinfo, scope_id }),
    {
        SocketAddrV6 { ip, port, flowinfo, scope_id }
    }
}

} // verus!
