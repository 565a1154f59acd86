//! The TCP server: its builder and the admission of clients.

use vstd::prelude::*;

verus! {

/// Default maximum number of clients of a server.
pub const DEFAULT_MAX_CLIENTS: usize = 4usize;

/// Default size of the event queue of a server.
pub const DEFAULT_EVENT_QUEUE_SIZE: usize = 8usize;

/// The main builder structure used to create a new TCP server.
pub struct Builder<F> {
    factory: F,
    max_clients: usize,
    event_queue_size: usize,
}

impl<F> Builder<F> {
    /// The factory of the main server event handler.
    pub closed spec fn factory(&self) -> F {
        self.factory
    }

    /// The maximum number of clients allowed at the same time.
    pub closed spec fn client_limit(&self) -> nat {
        self.max_clients as nat
    }

    /// The size of the event queue.
    pub closed spec fn queue_size(&self) -> nat {
        self.event_queue_size as nat
    }

    /// Creates a new TCP server from the given main event handler factory,
    /// allowing 4 clients, with an event queue of 8.
    pub fn new(factory: F) -> (res: Self)
        ensures
            res.factory() == factory,
            res.client_limit() == DEFAULT_MAX_CLIENTS,
            res.queue_size() == DEFAULT_EVENT_QUEUE_SIZE,
    {
        Builder {
            factory,
            max_clients: DEFAULT_MAX_CLIENTS,
            event_queue_size: DEFAULT_EVENT_QUEUE_SIZE,
        }
    }

    /// Sets the maximum number of clients allowed at the same time, and the
    /// size of the event queue to twice that number.
    pub fn max_clients(self, count: usize) -> (res: Self)
        requires
            count <= usize::MAX / 2,
        ensures
            res.factory() == self.factory(),
            res.client_limit() == count,
            res.queue_size() == 2 * count,
    {
        let b = Builder { factory: self.factory, max_clients: count, event_queue_size: self.event_queue_size };
        b.event_queue_size(count * 2)
    }

    /// Sets the size of the event queue.
    pub fn event_queue_size(self, size: usize) -> (res: Self)
        ensures
            res.factory() == self.factory(),
            res.client_limit() == self.client_limit(),
            res.queue_size() == size,
    {
        Builder { factory: self.factory, max_clients: self.max_clients, event_queue_size: size }
    }

    /// The factory, the client limit and the event queue size the server is
    /// started with.
    pub fn into_parts(self) -> (res: (F, usize, usize))
        ensures
            res.0 == self.factory(),
            res.1 == self.client_limit(),
            res.2 == self.queue_size(),
    {
        (self.factory, self.max_clients, self.event_queue_size)
    }
}

/// What a server does with a connection it accepted.
#[derive(Debug, Clone, Copy, PartialEq, Eq, Structural)]
pub enum Admission {
    /// Serve the client under this network id.
    Admit(usize),
    /// Shut the connection down: the server is full.
    Reject,
}

/// The clients of a running server: how many are connected, how many may
/// be, and the network id the next connection gets.
#[derive(Debug)]
pub struct Clients {
    next_id: usize,
    cur_clients: usize,
    max_clients: usize,
}

impl Clients {
    /// The network id of the next accepted connection.
    pub closed spec fn next_id(&self) -> nat {
        self.next_id as nat
    }

    /// The number of clients connected.
    pub closed spec fn count(&self) -> nat {
        self.cur_clients as nat
    }

    /// The maximum number of clients allowed at the same time.
    pub closed spec fn limit(&self) -> nat {
        self.max_clients as nat
    }

    /// Never more clients than allowed; network ids start at 1.
    pub open spec fn wf(&self) -> bool {
        &&& self.count() <= self.limit()
        &&& self.next_id() >= 1
    }

    /// A server with no client yet, allowing `max_clients` of them.
    pub fn new(max_clients: usize) -> (res: Self)
        ensures
            res.wf(),
            res.next_id() == 1,
            res.count() == 0,
            res.limit() == max_clients,
    {
        Clients { next_id: 1, cur_clients: 0, max_clients }
    }

    /// Returns the maximum number of clients allowed at the same time.
    pub fn max_clients(&self) -> (res: usize)
        ensures
            res == self.limit(),
    {
        self.max_clients
    }

    /// Returns the current number of clients connected.
    pub fn cur_clients(&self) -> (res: usize)
        ensures
            res == self.count(),
    {
        self.cur_clients
    }

    /// Returns true while network ids are left for new connections.
    pub fn ids_left(&self) -> (res: bool)
        ensures
            res == (self.next_id() < usize::MAX),
    {
        self.next_id < usize::MAX
    }

    /// A connection was accepted. Every connection uses up a network id; it
    /// is admitted under that id when the server is not full.
    pub fn on_accept(&mut self) -> (res: Admission)
        requires
            old(self).wf(),
            old(self).next_id() < usize::MAX,
        ensures
            final(self).wf(),
            accepted(*old(self), *final(self), res),
    {
        let id: usize = self.next_id;
        self.next_id = id + 1;
        if self.cur_clients < self.max_clients {
            self.cur_clients = self.cur_clients + 1;
            Admission::Admit(id)
        } else {
            Admission::Reject
        }
    }

    /// A client task finished.
    pub fn on_disconnect(&mut self)
        requires
            old(self).wf(),
            old(self).count() > 0,
        ensures
            final(self).wf(),
            disconnected(*old(self), *final(self)),
    {
        self.cur_clients = self.cur_clients - 1;
    }
}

/// `after` is `before` after accepting a connection, which was answered
/// with `res`: the connection used up a network id, and was admitted under
/// it when the server was not full.
pub open spec fn accepted(before: Clients, after: Clients, res: Admission) -> bool {
    &&& after.limit() == before.limit()
    &&& after.next_id() == before.next_id() + 1
    &&& before.count() < before.limit() ==> {
        &&& res == Admission::Admit(before.next_id() as usize)
        &&& after.count() == before.count() + 1
    }
    &&& before.count() >= before.limit() ==> {
        &&& res == Admission::Reject
        &&& after.count() == before.count()
    }
}

/// `after` is `before` after one of its clients disconnected.
pub open spec fn disconnected(before: Clients, after: Clients) -> bool {
    &&& after.limit() == before.limit()
    &&& after.next_id() == before.next_id()
    &&& after.count() == before.count() - 1
}

/// `trace` is a run of a server: each step accepts a connection (with the
/// answer in `answers`) or sees a client disconnect (`None`).
pub open spec fn is_run(trace: Seq<Clients>, answers: Seq<Option<Admission>>) -> bool {
    &&& trace.len() == answers.len() + 1
    &&& forall|i: int| 0 <= i < answers.len() ==> match #[trigger] answers[i] {
        Some(res) => accepted(trace[i], trace[i + 1], res),
        None => disconnected(trace[i], trace[i + 1]),
    }
}

proof fn lemma_next_id_grows(trace: Seq<Clients>, answers: Seq<Option<Admission>>, i: int, j: int)
    requires
        is_run(trace, answers),
        0 <= i <= j < trace.len(),
    ensures
        trace[i].next_id() <= trace[j].next_id(),
    decreases j - i,
{
    if i < j {
        lemma_next_id_grows(trace, answers, i, j - 1);
        match answers[j - 1] {
            Some(res) => {},
            None => {},
        }
    }
}

/// The answer admitted a client.
pub open spec fn admitted(answer: Option<Admission>) -> bool {
    answer matches Some(Admission::Admit(_))
}

/// The network id of the client an answer admitted.
pub open spec fn admitted_id(answer: Option<Admission>) -> usize {
    match answer {
        Some(Admission::Admit(id)) => id,
        _ => 0,
    }
}

/// Over any run of a server, the network ids of admitted clients are all
/// different, and none of them is [ALL_CLIENTS](crate::tcp::server::client::ALL_CLIENTS):
/// a message sent to a client's id reaches that client alone.
pub proof fn lemma_ids_unique(trace: Seq<Clients>, answers: Seq<Option<Admission>>)
    requires
        is_run(trace, answers),
        trace[0].wf(),
    ensures
        forall|i: int, j: int|
            0 <= i < j < answers.len() && admitted(#[trigger] answers[i]) && admitted(#[trigger] answers[j])
                ==> admitted_id(answers[i]) < admitted_id(answers[j]),
        forall|i: int|
            0 <= i < answers.len() && admitted(#[trigger] answers[i])
                ==> admitted_id(answers[i]) != crate::tcp::server::client::ALL_CLIENTS,
{
    assert forall|i: int, j: int|
        0 <= i < j < answers.len() && admitted(#[trigger] answers[i]) && admitted(#[trigger] answers[j])
            implies admitted_id(answers[i]) < admitted_id(answers[j]) by {
        assert(accepted(trace[i], trace[i + 1], answers[i]->Some_0));
        assert(accepted(trace[j], trace[j + 1], answers[j]->Some_0));
        lemma_next_id_grows(trace, answers, i + 1, j);
    }
    assert forall|i: int|
        0 <= i < answers.len() && admitted(#[trigger] answers[i])
            implies admitted_id(answers[i]) != crate::tcp::server::client::ALL_CLIENTS by {
        assert(accepted(trace[i], trace[i + 1], answers[i]->Some_0));
        lemma_next_id_grows(trace, answers, 0, i);
    }
}

/// Over any run of a server that starts within its limit, the server never
/// serves more clients than its maximum, and the maximum never changes.
pub proof fn lemma_run_within_limit(trace: Seq<Clients>, answers: Seq<Option<Admission>>)
    requires
        is_run(trace, answers),
        trace[0].count() <= trace[0].limit(),
    ensures
        forall|i: int| 0 <= i < trace.len() ==> (#[trigger] trace[i]).count() <= trace[i].limit()
            && trace[i].limit() == trace[0].limit(),
{
    assert forall|i: int| 0 <= i < trace.len() implies (#[trigger] trace[i]).count() <= trace[i].limit()
        && trace[i].limit() == trace[0].limit() by {
        lemma_within_limit_at(trace, answers, i);
    }
}

proof fn lemma_within_limit_at(trace: Seq<Clients>, answers: Seq<Option<Admission>>, i: int)
    requires
        is_run(trace, answers),
        trace[0].count() <= trace[0].limit(),
        0 <= i < trace.len(),
    ensures
        trace[i].count() <= trace[i].limit(),
        trace[i].limit() == trace[0].limit(),
    decreases i,
{
    if i > 0 {
        lemma_within_limit_at(trace, answers, i - 1);
        match answers[i - 1] {
            Some(res) => {},
            None => {},
        }
    }
}

/// Admission is complete: a connection that arrives while fewer clients
/// than the limit are connected is admitted under the next network id and
/// takes one slot; only a full server rejects, and a rejection leaves the
/// count alone. Every accept uses up exactly one network id.
pub proof fn lemma_admission(before: Clients, after: Clients, res: Admission)
    requires
        accepted(before, after, res),
    ensures
        before.count() < before.limit() ==> res == Admission::Admit(before.next_id() as usize),
        before.count() < before.limit() ==> after.count() == before.count() + 1,
        res == Admission::Reject ==> before.count() >= before.limit() && after.count() == before.count(),
        res matches Admission::Admit(id) ==> id == before.next_id() && after.count() == before.count() + 1,
        after.next_id() == before.next_id() + 1,
        after.limit() == before.limit(),
{
}

/// A disconnect frees exactly one slot, whatever the number of clients,
/// and changes nothing else.
pub proof fn lemma_disconnect_frees_slot(before: Clients, after: Clients)
    requires
        disconnected(before, after),
    ensures
        after.count() + 1 == before.count(),
        after.limit() == before.limit(),
        after.next_id() == before.next_id(),
{
}

/// Number of admissions among `answers`.
pub open spec fn admissions(answers: Seq<Option<Admission>>) -> nat
    decreases answers.len(),
{
    if answers.len() == 0 {
        0
    } else {
        admissions(answers.drop_last()) + if admitted(answers.last()) { 1nat } else { 0nat }
    }
}

/// Number of disconnects among `answers`.
pub open spec fn departures(answers: Seq<Option<Admission>>) -> nat
    decreases answers.len(),
{
    if answers.len() == 0 {
        0
    } else {
        departures(answers.drop_last()) + if answers.last() is None { 1nat } else { 0nat }
    }
}

proof fn lemma_count_at(trace: Seq<Clients>, answers: Seq<Option<Admission>>, i: int)
    requires
        is_run(trace, answers),
        0 <= i <= answers.len(),
    ensures
        trace[i].count() + departures(answers.take(i)) == trace[0].count() + admissions(answers.take(i)),
    decreases i,
{
    if i > 0 {
        lemma_count_at(trace, answers, i - 1);
        assert(answers.take(i).drop_last() =~= answers.take(i - 1));
        assert(answers.take(i).last() == answers[i - 1]);
        match answers[i - 1] {
            Some(res) => {
                assert(accepted(trace[i - 1], trace[i], res));
            },
            None => {
                assert(disconnected(trace[i - 1], trace[i]));
            },
        }
    } else {
        assert(answers.take(0) =~= Seq::<Option<Admission>>::empty());
    }
}

/// Over any run of a server, the number of connected clients is the number
/// it started with, plus the clients admitted, minus the clients that
/// disconnected: no slot is ever lost or made up.
pub proof fn lemma_count_balance(trace: Seq<Clients>, answers: Seq<Option<Admission>>)
    requires
        is_run(trace, answers),
    ensures
        forall|i: int| 0 <= i <= answers.len() ==>
            #[trigger] trace[i].count() + departures(answers.take(i)) == trace[0].count() + admissions(answers.take(i)),
{
    assert forall|i: int| 0 <= i <= answers.len() implies
        #[trigger] trace[i].count() + departures(answers.take(i)) == trace[0].count() + admissions(answers.take(i)) by {
        lemma_count_at(trace, answers, i);
    }
}

} // verus!
