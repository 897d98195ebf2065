use crate::addr_v6::scope::Ipv6Scope;
use crate::utils::uid::Uid;
use vstd::prelude::*;

verus! {

/// A control message: a control code, the sending host and the address it answers at.
#[derive(Debug)]
pub struct CtrlMsg {
    pub ctrl: (),
    pub version: u8,
    pub ctrl_code: u8,
    pub host_id: Uid,
    pub addr: Ipv6Scope,
}

/// A control message as the contracts see it, the host identifier by its text.
pub struct CtrlMsgView {
    pub version: u8,
    pub ctrl_code: u8,
    pub host_id: Seq<char>,
    pub addr: Ipv6Scope,
}

impl View for CtrlMsg {
    type V = CtrlMsgView;

    open spec fn view(&self) -> CtrlMsgView {
        CtrlMsgView {
            version: self.version,
            ctrl_code: self.ctrl_code,
            host_id: self.host_id@,
            addr: self.addr,
        }
    }
}

impl CtrlMsg {
    /// A version-0 control message.
    pub fn new(ctrl_code: u8, host_id: Uid, addr: Ipv6Scope) -> (r: CtrlMsg)
        ensures
            r.version == 0,
            r.ctrl_code == ctrl_code,
            r.host_id@ == host_id@,
            r.addr == addr,
    {
        CtrlMsg { ctrl: (), version: 0, ctrl_code, host_id, addr }
    }
}

} // verus!
