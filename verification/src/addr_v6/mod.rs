pub mod ip;
pub mod scope_id;
pub mod scope;
