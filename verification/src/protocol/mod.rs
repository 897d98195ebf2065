pub mod peer_ctrl_code;
