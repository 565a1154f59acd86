//! Decisions of the C interface to IPC: when a peer loop goes on, and the
//! count of connected peers that a shutdown waits for.

use vstd::prelude::*;

verus! {

/// What a peer loop of the C interface does after a receive completed.
#[derive(Debug, Clone, Copy, PartialEq, Eq, Structural)]
pub enum PeerStep {
    /// The peer disconnected normally: leave the loop without delivering.
    Disconnected,
    /// Deliver the message to the application.
    Deliver,
}

/// The step of a peer loop after a receive left `msg_len` bytes: an empty
/// message is a normal disconnect, any other message is delivered.
pub fn after_receive(msg_len: usize) -> (res: PeerStep)
    ensures
        res == (if msg_len == 0 { PeerStep::Disconnected } else { PeerStep::Deliver }),
{
    if msg_len == 0 {
        PeerStep::Disconnected
    } else {
        PeerStep::Deliver
    }
}

/// Whether the loop serving a connection opened by this process receives
/// again after a delivery: it stops once the client was ejected or a
/// shutdown was requested.
pub fn receive_again(ejected: bool, shutdown: bool) -> (res: bool)
    ensures
        res == (!ejected && !shutdown),
{
    !ejected && !shutdown
}

/// A handle given to C is usable when it is not null and the object it
/// designates is not being torn down (ejected client, or core whose
/// shutdown was requested).
pub fn handle_is_valid(is_null: bool, torn_down: bool) -> (res: bool)
    ensures
        res == (!is_null && !torn_down),
{
    !is_null && !torn_down
}

/// The number of peers connected through the C interface.
#[derive(Debug)]
pub struct PeerCount {
    count: usize,
}

impl PeerCount {
    /// The number of connected peers.
    pub closed spec fn value(&self) -> nat {
        self.count as nat
    }

    /// No peer connected.
    pub fn new() -> (res: Self)
        ensures
            res.value() == 0,
    {
        PeerCount { count: 0 }
    }

    /// Returns the number of connected peers.
    pub fn clients(&self) -> (res: usize)
        ensures
            res == self.value(),
    {
        self.count
    }

    /// A peer connected.
    pub fn connect(&mut self)
        requires
            old(self).value() < usize::MAX,
        ensures
            final(self).value() == old(self).value() + 1,
    {
        self.count = self.count + 1;
    }

    /// A peer disconnected.
    pub fn disconnect(&mut self)
        requires
            old(self).value() > 0,
        ensures
            final(self).value() == old(self).value() - 1,
    {
        self.count = self.count - 1;
    }

    /// Whether a shutdown still waits for peers to disconnect.
    pub fn shutdown_waits(&self) -> (res: bool)
        ensures
            res == (self.value() > 0),
    {
        self.count > 0
    }
}

} // verus!
