use crate::addr_v6::scope::Ipv6Scope;
use crate::env::env::{spec_best_local_link, Env, EnvError};
use crate::peer::future_state::PeerFutureState;
use crate::utils::uid::Uid;
use vstd::prelude::*;

verus! {

/// The greeting a host multicasts: its identifier and its link-local address.
#[derive(Debug)]
pub struct HelloMsg {
    pub halo: (),
    pub version: u8,
    pub host_id: Uid,
    pub addr: Ipv6Scope,
}

impl HelloMsg {
    /// The version-0 greeting of the host described by `env`, at its best link-local address.
    /// The host must have such an address.
    pub fn new(env: &Env) -> (r: Self)
        requires
            spec_best_local_link(env.nics@) is Ok,
        ensures
            r.version == 0,
            r.host_id@ == env.host_id@,
            Ok::<Ipv6Scope, EnvError>(r.addr) == spec_best_local_link(env.nics@),
    {
        let addr = env.best_local_link().unwrap();
        HelloMsg { halo: (), version: 0, host_id: env.host_id.clone(), addr }
    }

    /// The greeting as a peer sees it: the host and where to reach it.
    pub fn into_peer(self) -> (r: (Uid, PeerFutureState))
        ensures
            r.0@ == self.host_id@,
            r.1 == PeerFutureState::Connect(self.addr),
    {
        PeerFutureState::from_hello(self.host_id, self.addr)
    }
}

} // verus!
