//! The task serving one client of a TCP server.

use vstd::prelude::*;

verus! {

/// Network id that addresses every client of a server.
pub const ALL_CLIENTS: usize = 0usize;

/// A message sent to `target` is for the client whose network id is
/// `net_id`.
pub open spec fn addressed(target: usize, net_id: usize) -> bool {
    target == ALL_CLIENTS || target == net_id
}

/// Whether a client whose network id is `net_id` writes a message sent to
/// `target`: every client writes a broadcast, and only the addressed client
/// writes a targeted message.
pub fn is_recipient(target: usize, net_id: usize) -> (res: bool)
    ensures
        res == addressed(target, net_id),
{
    target == ALL_CLIENTS || target == net_id
}

/// A broadcast reaches every client, a message sent to a client's network
/// id reaches that client, and a message sent to a network id other than
/// [ALL_CLIENTS] reaches no two clients.
pub proof fn lemma_addressing(target: usize, a: usize, b: usize)
    ensures
        addressed(ALL_CLIENTS, a),
        addressed(a, a),
        target != ALL_CLIENTS && a != b ==> !(addressed(target, a) && addressed(target, b)),
{
}

} // verus!
