pub mod hello_reply;
