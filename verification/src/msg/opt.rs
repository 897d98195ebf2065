use crate::peer::future_state::PeerFutureState;
use crate::utils::uid::Uid;
use vstd::prelude::*;

verus! {

/// A message that tells a peer the next step this host plans with it.
#[derive(Debug)]
pub struct OptMsg {
    pub opt: (),
    pub version: u8,
    pub opt_code: u8,
    pub host_id: Uid,
}

/// The bits that mark planned steps.
#[derive(Debug, Clone, Copy, PartialEq, Eq)]
pub struct OptCode {
    pub bits: u8,
}

impl OptCode {
    pub fn connecting() -> (r: OptCode)
        ensures
            r.bits == 0b0000_0001,
    {
        OptCode { bits: 0b0000_0001 }
    }

    pub fn establishing() -> (r: OptCode)
        ensures
            r.bits == 0b0000_0010,
    {
        OptCode { bits: 0b0000_0010 }
    }

    pub fn disposing() -> (r: OptCode)
        ensures
            r.bits == 0b0000_0100,
    {
        OptCode { bits: 0b0000_0100 }
    }

    pub fn disconnecting() -> (r: OptCode)
        ensures
            r.bits == 0b0000_1000,
    {
        OptCode { bits: 0b0000_1000 }
    }

    pub fn bits(&self) -> (r: u8)
        ensures
            r == self.bits,
    {
        self.bits
    }

    /// The code with exactly these bits, when each is a named one.
    pub fn from_bits(bits: u8) -> (r: Option<OptCode>)
        ensures
            r is Some <==> bits & !0b0000_1111u8 == 0,
            r matches Some(c) ==> c.bits == bits,
    {
        if bits & !0b0000_1111u8 == 0 {
            Some(OptCode { bits })
        } else {
            None
        }
    }
}

/// The code for a planned step: 1, 2, 4 and 8 for connect, establish, dispose and disconnect.
pub open spec fn spec_code_of(s: PeerFutureState) -> u8 {
    match s {
        PeerFutureState::Connect(_) => 0b0000_0001,
        PeerFutureState::Establish(_) => 0b0000_0010,
        PeerFutureState::Dispose(_) => 0b0000_0100,
        PeerFutureState::Disconnect(_) => 0b0000_1000,
    }
}

impl Clone for OptMsg {
    fn clone(&self) -> (r: Self)
        ensures
            r.version == self.version,
            r.opt_code == self.opt_code,
            r.host_id@ == self.host_id@,
    {
        OptMsg { opt: (), version: self.version, opt_code: self.opt_code, host_id: self.host_id.clone() }
    }
}

impl OptMsg {
    /// A version-0 message with this code and host.
    pub fn new(opt_code: u8, host_id: Uid) -> (r: OptMsg)
        ensures
            r.version == 0,
            r.opt_code == opt_code,
            r.host_id@ == host_id@,
    {
        OptMsg { opt: (), version: 0, opt_code, host_id }
    }

    /// The message announcing a planned step, from the host `host_id`.
    pub fn gen_msg_by_state(e: &PeerFutureState, host_id: &Uid) -> (r: Self)
        ensures
            r.version == 0,
            r.host_id@ == host_id@,
            r.opt_code == spec_code_of(*e),
    {
        let uid = host_id.clone();
        match e {
            PeerFutureState::Connect(_) => OptMsg::new(OptCode::connecting().bits(), uid),
            PeerFutureState::Establish(_) => OptMsg::new(OptCode::establishing().bits(), uid),
            PeerFutureState::Dispose(_) => OptMsg::new(OptCode::disposing().bits(), uid),
            PeerFutureState::Disconnect(_) => OptMsg::new(OptCode::disconnecting().bits(), uid),
        }
    }
}

} // verus!
