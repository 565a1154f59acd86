//! A basic TCP client designed for long-running connections.

use vstd::prelude::*;

verus! {

/// Default size of the event queue of a client.
pub const DEFAULT_EVENT_QUEUE_SIZE: usize = 4usize;

/// The main builder structure used to create a new TCP client.
pub struct Builder<F> {
    factory: F,
    event_queue_size: usize,
}

impl<F> Builder<F> {
    /// The factory of the main event handler.
    pub closed spec fn factory(&self) -> F {
        self.factory
    }

    /// The size of the event queue.
    pub closed spec fn queue_size(&self) -> nat {
        self.event_queue_size as nat
    }

    /// Creates a new TCP client from the given main event handler factory,
    /// with an event queue of 4.
    pub fn new(factory: F) -> (res: Builder<F>)
        ensures
            res.factory() == factory,
            res.queue_size() == DEFAULT_EVENT_QUEUE_SIZE,
    {
        Builder { factory, event_queue_size: DEFAULT_EVENT_QUEUE_SIZE }
    }

    /// Sets the size of the event queue.
    pub fn event_queue_size(self, size: usize) -> (res: Self)
        ensures
            res.factory() == self.factory(),
            res.queue_size() == size,
    {
        Builder { factory: self.factory, event_queue_size: size }
    }

    /// The factory and the event queue size the client is started with.
    pub fn into_parts(self) -> (res: (F, usize))
        ensures
            res.0 == self.factory(),
            res.1 == self.queue_size(),
    {
        (self.factory, self.event_queue_size)
    }
}

} // verus!
