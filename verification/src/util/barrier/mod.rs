//! Barrier synchronization primitives.

pub mod broadcast;

use vstd::prelude::*;

verus! {

/// Errors of a barrier.
#[derive(Debug, Clone, Copy, PartialEq, Eq, Structural)]
pub enum Error {
    /// The barrier was closed.
    Closed,
    /// No receiver is left, or the channel was closed prematurely.
    BrokenPipe,
}

} // verus!
