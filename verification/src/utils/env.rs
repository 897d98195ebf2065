use super::uid::Uid;
use crate::addr_v6::ip::Ipv6Addr;
use vstd::prelude::*;

verus! {

/// The characters of the URL-safe alphabet that identifiers are drawn from:
/// `A-Z`, `a-z`, `0-9`, `_` and `-`.
pub open spec fn is_id_char(c: char) -> bool {
    ('A' <= c && c <= 'Z') || ('a' <= c && c <= 'z') || ('0' <= c && c <= '9') || c == '_' || c
        == '-'
}

/// An identifier as this host draws them: 21 characters of the URL-safe alphabet.
pub open spec fn is_fresh_id(s: Seq<char>) -> bool {
    &&& s.len() == 21
    &&& forall|i: int| 0 <= i < s.len() ==> is_id_char(#[trigger] s[i])
}

/// `nanoid::format` with the entropy source `nanoid::rngs::default`, the URL-safe alphabet
/// `nanoid::alphabet::SAFE` and size 21, as `nanoid!()` expands. The characters are drawn
/// at random; each is one of the alphabet's 64 and there are 21 of them.
#[verifier::external_body]
pub(crate) fn random_host_id() -> (r: String)
    ensures
        is_fresh_id(r@),
{
    nanoid::format(nanoid::rngs::default, &nanoid::alphabet::SAFE, 21)
}

/// The settings every part of the protocol shares.
#[derive(Debug)]
pub struct Env {
    pub host_id: Uid,
    pub multicast_lan: Ipv6Addr,
    pub multicast_wan: Ipv6Addr,
    pub protocol_port: u16,
    pub protocol_version: u8,
}

/// `ff12::1`: the multicast group on the link.
pub open spec fn multicast_lan_addr() -> Seq<u16> {
    seq![0xff12u16, 0, 0, 0, 0, 0, 0, 1]
}

/// `ff1e::1`: the global multicast group.
pub open spec fn multicast_wan_addr() -> Seq<u16> {
    seq![0xff1eu16, 0, 0, 0, 0, 0, 0, 1]
}

impl Env {
    /// The settings with a freshly drawn host identifier: hellos go to `ff12::1` on the link
    /// and `ff1e::1` beyond it, on port 5555, with protocol version 0.
    pub fn new() -> (r: Env)
        ensures
            is_fresh_id(r.host_id@),
            r.multicast_lan.segments@ == multicast_lan_addr(),
            r.multicast_wan.segments@ == multicast_wan_addr(),
            r.protocol_port == 5555,
            r.protocol_version == 0,
    {
        Env {
            host_id: Uid::from(random_host_id()),
            multicast_lan: Ipv6Addr::new(0xff12, 0, 0, 0, 0, 0, 0, 1),
            multicast_wan: Ipv6Addr::new(0xff1e, 0, 0, 0, 0, 0, 0, 1),
            protocol_port: 5555,
            protocol_version: 0x0,
        }
    }

    /// Draws a fresh host identifier; every other setting stays.
    pub fn regen_host_id(&mut self)
        ensures
            is_fresh_id(final(self).host_id@),
            final(self).multicast_lan == old(self).multicast_lan,
            final(self).multicast_wan == old(self).multicast_wan,
            final(self).protocol_port == old(self).protocol_port,
            final(self).protocol_version == old(self).protocol_version,
    {
        self.host_id = Uid::from(random_host_id());
    }
}

} // verus!
