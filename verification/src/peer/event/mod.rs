pub mod flags;
pub mod event;
pub mod state_table;
pub mod handler;
