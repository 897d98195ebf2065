pub mod msg_interceptor;
