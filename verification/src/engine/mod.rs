//! The client side of the orchestration engine: its messages and the requests the
//! server sends it.
pub mod client;
pub mod proto;
