//! A basic TCP server with a bounded number of clients.

pub mod client;
pub mod server;
