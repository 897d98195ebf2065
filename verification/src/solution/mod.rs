pub mod hello_reply;
pub mod peer_event_executor;
pub mod peer_event_solution;
