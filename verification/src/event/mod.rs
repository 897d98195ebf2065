pub mod peer_event;
