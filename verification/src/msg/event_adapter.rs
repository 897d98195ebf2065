use super::msg::Parcel;
use crate::peer::event::event::{spec_event_of, PeerEvent};
use vstd::prelude::*;

verus! {

/// Turns incoming parcels into peer events.
pub struct MsgEventAdapter;

impl MsgEventAdapter {
    /// The event an incoming parcel stands for.
    pub fn adapt(parcel: Parcel) -> (r: PeerEvent)
        ensures
            r@ == spec_event_of(parcel.0, parcel.1),
    {
        PeerEvent::from_parcel(parcel)
    }
}

} // verus!
