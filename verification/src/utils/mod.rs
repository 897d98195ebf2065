pub mod uid;
pub mod env;
pub mod nic;
pub mod net_iface;
