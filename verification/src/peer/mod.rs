pub mod event;
pub mod peer_state;
pub mod future_state;
pub mod solutions;
pub mod repeating_hello;
pub mod cursor;
pub mod peer_event_solution;
pub mod peer_event_flags;
pub mod peer_event_handler;
pub mod peer_table;
