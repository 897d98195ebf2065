use crate::peer::peer_state::PeerState;
use crate::utils::uid::Uid;
use vstd::prelude::*;

verus! {

/// A message that tells a peer where this host's session with it stands.
#[derive(Debug)]
pub struct OptMsg {
    pub opt: (),
    pub version: u8,
    pub opt_code: u8,
    pub host_id: Uid,
}

impl Clone for OptMsg {
    fn clone(&self) -> (r: Self)
        ensures
            r.version == self.version,
            r.opt_code == self.opt_code,
            r.host_id@ == self.host_id@,
    {
        OptMsg { opt: (), version: self.version, opt_code: self.opt_code, host_id: self.host_id.clone() }
    }
}

impl OptMsg {
    /// A version-0 message with this code and host.
    pub fn new(opt_code: u8, host_id: Uid) -> (r: OptMsg)
        ensures
            r.version == 0,
            r.opt_code == opt_code,
            r.host_id@ == host_id@,
    {
        OptMsg { opt: (), version: 0, opt_code, host_id }
    }

    /// The message for a session state, from the host `host_id`: code 1 (connecting) for
    /// `Connect`, code 2 (established) for `Establish`.
    pub fn gen_msg_by_state(e: &PeerState, host_id: &Uid) -> (r: Self)
        ensures
            r.version == 0,
            r.host_id@ == host_id@,
            r.opt_code == (match *e {
                PeerState::Connect(_) => 0b0000_0001u8,
                PeerState::Establish(_) => 0b0000_0010u8,
            }),
    {
        let uid = host_id.clone();
        match e {
            PeerState::Connect(_) => OptMsg::new(
                crate::peer::peer_state::PeerStateCode::connecting().bits(),
                uid,
            ),
            PeerState::Establish(_) => OptMsg::new(
                crate::peer::peer_state::PeerStateCode::established().bits(),
                uid,
            ),
        }
    }
}

} // verus!
