//! The builder of a UDP client.

use vstd::prelude::*;

verus! {

/// Default size of the event queue of a UDP client.
pub const DEFAULT_EVENT_QUEUE_SIZE: usize = 4usize;

/// The main builder structure used to create a new UDP client. The
/// initial buffer is the one datagrams are received into.
pub struct Builder<H, const N: usize> {
    handler: H,
    event_queue_size: usize,
    init_buffer: [u8; N],
}

impl<H, const N: usize> Builder<H, N> {
    /// The main event handler.
    pub closed spec fn handler(&self) -> H {
        self.handler
    }

    /// The size of the event queue.
    pub closed spec fn queue_size(&self) -> nat {
        self.event_queue_size as nat
    }

    /// The buffer datagrams are received into.
    pub closed spec fn buffer(&self) -> Seq<u8> {
        self.init_buffer@
    }

    /// Creates a new UDP client from the given main event handler and receive
    /// buffer, with an event queue of 4.
    pub fn new(handler: H, init_buffer: [u8; N]) -> (res: Builder<H, N>)
        ensures
            res.handler() == handler,
            res.queue_size() == DEFAULT_EVENT_QUEUE_SIZE,
            res.buffer() == init_buffer@,
    {
        Builder { handler, event_queue_size: DEFAULT_EVENT_QUEUE_SIZE, init_buffer }
    }

    /// Sets the size of the event queue.
    pub fn event_queue_size(self, size: usize) -> (res: Self)
        ensures
            res.handler() == self.handler(),
            res.queue_size() == size,
            res.buffer() == self.buffer(),
    {
        Builder { handler: self.handler, event_queue_size: size, init_buffer: self.init_buffer }
    }

    /// The handler, the event queue size and the receive buffer the
    /// client is started with.
    pub fn into_parts(self) -> (res: (H, usize, [u8; N]))
        ensures
            res.0 == self.handler(),
            res.1 == self.queue_size(),
            res.2@ == self.buffer(),
    {
        (self.handler, self.event_queue_size, self.init_buffer)
    }
}

} // verus!
