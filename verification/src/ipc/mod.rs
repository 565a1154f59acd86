//! Message based local IPC: message buffers and the datagram link protocol.

pub mod util;
pub mod protocol;
