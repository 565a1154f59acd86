//! TCP clients and servers designed for long-running connections.

pub mod buffer;
pub mod client;
pub mod server;
pub mod util;
