//! UDP clients and servers receiving datagrams in a loop.

pub mod client;
pub mod server;
