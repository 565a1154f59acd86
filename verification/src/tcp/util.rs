//! Events of a TCP connection task and what the task does with them.

use vstd::prelude::*;

verus! {

/// What waiting on a TCP stream produced.
#[derive(Debug, Clone, Copy, PartialEq, Eq, Structural)]
pub enum ReadyEvent {
    /// Nothing to do.
    Idle,
    /// Bytes were read and handed to the reader task.
    Submitted,
    /// This many bytes were read into the task buffer.
    Read(usize),
    /// The peer is gone.
    ConnectionLoss,
}

/// What a connection task does next.
#[derive(Debug, Clone, Copy, PartialEq, Eq, Structural)]
pub enum LoopStep {
    /// Wait for the next event.
    Continue,
    /// Leave the loop and disconnect.
    Stop,
    /// Hand this many bytes of the task buffer to the reader task.
    Forward(usize),
}

/// Error of a send on a TCP client.
#[derive(Debug, Clone, Copy, PartialEq, Eq, Structural)]
pub enum SendError {
    /// The client is exiting.
    IsExiting,
    /// The connection task has stopped.
    Closed,
}

/// The next step of a connection task after `event`.
pub fn on_ready(event: ReadyEvent) -> (res: LoopStep)
    ensures
        res == (match event {
            ReadyEvent::ConnectionLoss => LoopStep::Stop,
            ReadyEvent::Read(n) => LoopStep::Forward(n),
            _ => LoopStep::Continue,
        }),
{
    match event {
        ReadyEvent::ConnectionLoss => LoopStep::Stop,
        ReadyEvent::Read(n) => LoopStep::Forward(n),
        ReadyEvent::Idle => LoopStep::Continue,
        ReadyEvent::Submitted => LoopStep::Continue,
    }
}

/// The event of a read of `len` bytes from a stream: a read of nothing
/// means the peer closed the connection.
pub fn on_read(len: usize) -> (res: ReadyEvent)
    ensures
        res == (if len == 0 { ReadyEvent::ConnectionLoss } else { ReadyEvent::Read(len) }),
{
    if len == 0 {
        ReadyEvent::ConnectionLoss
    } else {
        ReadyEvent::Read(len)
    }
}

/// Whether a send may go ahead on a client that is exiting or not.
pub fn check_send(is_exiting: bool) -> (res: Result<(), SendError>)
    ensures
        res is Err <==> is_exiting,
        res matches Err(e) ==> e == SendError::IsExiting,
{
    if is_exiting {
        Err(SendError::IsExiting)
    } else {
        Ok(())
    }
}

} // verus!
