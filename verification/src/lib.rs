//! Message, datagram and connection bookkeeping for the BP3D networking layer.
//!
//! The socket and task plumbing lives outside this crate; everything that
//! decides what a connection does with the bytes and events it sees is here,
//! with its contract.

pub mod ipc;
pub mod tcp;
pub mod udp;
pub mod util;
pub mod capi;
