//! A multi-client barrier: a sender waits until every receiver has
//! released the message it sent.

use vstd::prelude::*;
use crate::util::barrier::Error;

verus! {

/// Whether a message may be sent on a barrier that is closed or not.
pub fn check_open(closed: bool) -> (res: Result<(), Error>)
    ensures
        res is Err <==> closed,
        res matches Err(e) ==> e == Error::Closed,
{
    if closed {
        Err(Error::Closed)
    } else {
        Ok(())
    }
}

/// The number of releases a sender waits for, given the number of
/// receivers the message reached, `None` when the channel had none.
pub fn releases_awaited(receivers: Option<usize>) -> (res: Result<usize, Error>)
    ensures
        match receivers {
            Some(n) => res == Ok::<usize, Error>(n),
            None => res == Err::<usize, Error>(Error::BrokenPipe),
        },
{
    match receivers {
        Some(n) => Ok(n),
        None => Err(Error::BrokenPipe),
    }
}

} // verus!
