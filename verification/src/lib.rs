//! Link-local peer discovery over IPv6: address scopes, message framing and
//! the peer event state machine, with their contracts proved by Verus.

pub mod addr_v6;
pub mod msg;
pub mod utils;
pub mod peer;
pub mod protocol;
pub mod env;
pub mod solution;
pub mod discovery;
pub mod event;
pub mod interceptor;
