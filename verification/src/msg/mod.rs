pub mod buf;
pub mod codec;
pub mod msg_codec;
pub mod msg;
pub mod socket;
pub mod splitter;
pub mod event_adapter;
pub mod protocol_socket;
pub mod opt_msg;
pub mod opt;
pub mod ctrl_msg;
pub mod hello_msg;
pub mod msg_socket;
