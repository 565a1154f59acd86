//! The datagram protocol spoken over an IPC link.
//!
//! A connection starts with a one byte hello from each side. Each message
//! then travels as one datagram: the message bytes followed by a closing
//! byte. A datagram made of the single [END] byte closes the link, and a
//! datagram that ends with [ACK] is a keep-alive which carries no message.
//! A link on which [MAX_FAILURES] receive intervals pass in silence is dead.

use vstd::prelude::*;
use crate::ipc::util::Message;

verus! {

/// First byte sent by a client to a server.
pub const INIT_CLIENT_CONNECT: u8 = 0xABu8;

/// Answer of a server to an accepted client.
pub const INIT_SERVER_CONNECT: u8 = 0xCDu8;

/// Keep-alive byte.
pub const ACK: u8 = 0xFFu8;

/// Nominal end of a connection.
pub const END: u8 = 0xFEu8;

/// Number of silent receive intervals after which a link is dead.
pub const MAX_FAILURES: usize = 2usize;

/// What a received datagram means.
#[derive(Debug, Clone, Copy, PartialEq, Eq, Structural)]
pub enum DatagramKind {
    /// The peer closed the link.
    Close,
    /// A message, followed by its closing byte.
    Data,
    /// A keep-alive.
    KeepAlive,
    /// An empty datagram: the peer is gone.
    Eof,
}

/// Errors of an IPC link.
#[derive(Debug, Clone, Copy, PartialEq, Eq, Structural)]
pub enum LinkError {
    /// The link is dead: it was closed, or the peer went silent.
    BrokenPipe,
    /// The peer vanished without closing the link.
    UnexpectedEof,
}

/// Meaning of the datagram `d`.
pub open spec fn datagram_kind(d: Seq<u8>) -> DatagramKind {
    if d.len() == 1 && d[0] == END {
        DatagramKind::Close
    } else if d.len() > 0 && d.last() != ACK {
        DatagramKind::Data
    } else if d.len() == 0 {
        DatagramKind::Eof
    } else {
        DatagramKind::KeepAlive
    }
}

/// The message carried by a data datagram: all but its closing byte.
pub open spec fn payload(d: Seq<u8>) -> Seq<u8> {
    d.drop_last()
}

/// Classifies a received datagram.
pub fn classify(d: &[u8]) -> (res: DatagramKind)
    ensures
        res == datagram_kind(d@),
{
    let n: usize = d.len();
    if n == 1 && d[0] == END {
        DatagramKind::Close
    } else if n > 0 && d[n - 1] != ACK {
        DatagramKind::Data
    } else if n == 0 {
        DatagramKind::Eof
    } else {
        DatagramKind::KeepAlive
    }
}

/// Is `d` the hello of a client, as read into a one byte buffer?
pub fn is_client_hello(d: &[u8]) -> (res: bool)
    ensures
        res == (d@ == seq![INIT_CLIENT_CONNECT]),
{
    let res: bool = d.len() == 1 && d[0] == INIT_CLIENT_CONNECT;
    proof {
        if d@ == seq![INIT_CLIENT_CONNECT] {
            assert(d@[0] == INIT_CLIENT_CONNECT);
        }
        if res {
            assert(d@ =~= seq![INIT_CLIENT_CONNECT]);
        }
    }
    res
}

/// Is `d` the answer of a server that accepted us, as read into a one byte
/// buffer?
pub fn is_server_hello(d: &[u8]) -> (res: bool)
    ensures
        res == (d@ == seq![INIT_SERVER_CONNECT]),
{
    let res: bool = d.len() == 1 && d[0] == INIT_SERVER_CONNECT;
    proof {
        if d@ == seq![INIT_SERVER_CONNECT] {
            assert(d@[0] == INIT_SERVER_CONNECT);
        }
        if res {
            assert(d@ =~= seq![INIT_SERVER_CONNECT]);
        }
    }
    res
}

/// The liveness state of one end of an IPC link: the number of receive
/// intervals that passed in silence.
#[derive(Debug)]
pub struct Link {
    failures: usize,
}

impl Link {
    /// Number of silent receive intervals counted so far.
    pub closed spec fn failures(&self) -> nat {
        self.failures as nat
    }

    /// The link is dead.
    pub open spec fn dead(&self) -> bool {
        self.failures() >= MAX_FAILURES
    }

    /// A fresh, live link.
    pub fn new() -> (res: Self)
        ensures
            res.failures() == 0,
    {
        Link { failures: 0 }
    }

    /// Returns true when the link is dead.
    pub fn is_dead(&self) -> (res: bool)
        ensures
            res == self.dead(),
            res == (self.failures() >= MAX_FAILURES),
    {
        self.failures >= MAX_FAILURES
    }

    /// Fails with [LinkError::BrokenPipe] when the link is dead.
    pub fn check_dead(&self) -> (res: Result<(), LinkError>)
        ensures
            res is Err <==> self.dead(),
            res is Err <==> self.failures() >= MAX_FAILURES,
            res matches Err(e) ==> e == LinkError::BrokenPipe,
    {
        if self.failures >= MAX_FAILURES {
            Err(LinkError::BrokenPipe)
        } else {
            Ok(())
        }
    }

    /// Marks the link as dead.
    pub fn set_dead(&mut self)
        ensures
            final(self).failures() == MAX_FAILURES,
    {
        self.failures = MAX_FAILURES;
    }

    /// Whether the keep-alive task goes on sending keep-alives.
    pub fn keep_alive(&self) -> (res: bool)
        ensures
            res == !self.dead(),
            res == (self.failures() < MAX_FAILURES),
    {
        self.failures < MAX_FAILURES
    }

    /// A receive interval passed without any datagram. Fails with
    /// [LinkError::BrokenPipe] when the link had already seen
    /// [MAX_FAILURES] silent intervals.
    pub fn on_timeout(&mut self) -> (res: Result<(), LinkError>)
        ensures
            timed_out(*old(self), *final(self), res is Err),
            res matches Err(e) ==> e == LinkError::BrokenPipe,
    {
        let previous: usize = self.failures;
        self.failures = previous.wrapping_add(1);
        if previous >= MAX_FAILURES {
            Err(LinkError::BrokenPipe)
        } else {
            Ok(())
        }
    }

    /// The socket answered a receive, with an error: the peer is still
    /// heard from.
    pub fn on_receive_error(&mut self)
        ensures
            final(self).failures() == 0,
    {
        self.failures = 0;
    }

    /// Handles one received datagram `d` for a receive into `msg`.
    ///
    /// Returns `None` when the datagram was a keep-alive and the receive
    /// goes on waiting; otherwise the outcome of the receive. A close leaves
    /// `msg` empty and the link dead; a data datagram leaves its payload in
    /// `msg`; an empty datagram kills the link.
    pub fn on_datagram(&mut self, msg: &mut Message, d: &[u8]) -> (res: Option<Result<(), LinkError>>)
        requires
            old(msg).wf(),
            d@.len() <= old(msg).capacity() + 1,
        ensures
            final(msg).wf(),
            final(msg).capacity() == old(msg).capacity(),
            match datagram_kind(d@) {
                DatagramKind::Close => {
                    &&& res == Some(Ok::<(), LinkError>(()))
                    &&& final(self).failures() == MAX_FAILURES
                    &&& final(msg).content() == Seq::<u8>::empty()
                },
                DatagramKind::Data => {
                    &&& res == Some(Ok::<(), LinkError>(()))
                    &&& final(self).failures() == 0
                    &&& final(msg).content() == payload(d@)
                },
                DatagramKind::Eof => {
                    &&& res == Some(Err::<(), LinkError>(LinkError::UnexpectedEof))
                    &&& final(self).failures() == MAX_FAILURES
                    &&& final(msg).content() == old(msg).content()
                },
                DatagramKind::KeepAlive => {
                    &&& res is None
                    &&& final(self).failures() == 0
                    &&& final(msg).content() == old(msg).content()
                },
            },
    {
        self.failures = 0;
        match classify(d) {
            DatagramKind::Close => {
                self.set_dead();
                msg.set_size(0);
                proof {
                    assert(msg.content() =~= Seq::<u8>::empty());
                }
                Some(Ok(()))
            },
            DatagramKind::Data => {
                let n: usize = d.len();
                let body = &d[0..n - 1];
                msg.set_size(0);
                proof {
                    assert(msg.content() =~= Seq::<u8>::empty());
                }
                let count: usize = msg.write(body);
                proof {
                    assert(body@ =~= payload(d@));
                    assert(body@.take(count as int) =~= body@);
                    assert(msg.content() =~= payload(d@));
                }
                Some(Ok(()))
            },
            DatagramKind::Eof => {
                self.set_dead();
                Some(Err(LinkError::UnexpectedEof))
            },
            DatagramKind::KeepAlive => None,
        }
    }

    /// The socket reports `count` bytes sent for a frame: the number of
    /// message bytes sent, or [LinkError::UnexpectedEof] with the link dead
    /// when nothing went out.
    pub fn on_sent(&mut self, count: usize) -> (res: Result<usize, LinkError>)
        ensures
            count == 0 ==> res == Err::<usize, LinkError>(LinkError::UnexpectedEof)
                && final(self).failures() == MAX_FAILURES,
            count > 0 ==> res == Ok::<usize, LinkError>((count - 1) as usize)
                && final(self).failures() == old(self).failures(),
    {
        if count == 0 {
            self.set_dead();
            Err(LinkError::UnexpectedEof)
        } else {
            Ok(count - 1)
        }
    }
}

/// Every message comes out of the link as it went in: the frame of any
/// content is a data datagram whose payload is that content. In
/// particular no frame is ever taken for a close or a keep-alive.
pub proof fn lemma_frame_round_trip(content: Seq<u8>)
    ensures
        datagram_kind(content.push(0u8)) == DatagramKind::Data,
        payload(content.push(0u8)) == content,
{
    assert(content.push(0u8).drop_last() =~= content);
}

/// The control datagrams mean what they are sent for: a lone [END] closes
/// the link, a lone [ACK] keeps it alive, and an empty datagram is the end
/// of the peer.
pub proof fn lemma_control_datagrams()
    ensures
        datagram_kind(seq![END]) == DatagramKind::Close,
        datagram_kind(seq![ACK]) == DatagramKind::KeepAlive,
        datagram_kind(Seq::<u8>::empty()) == DatagramKind::Eof,
{
}

/// What a receive gives back of a send: the frame of a message held by `sent`
/// fits any receiving message `received` that can hold that many bytes, and
/// it is received as a data datagram whose payload is exactly the content of
/// `sent`.
pub proof fn lemma_message_round_trip(sent: Message, received: Message)
    requires
        sent.wf(),
        received.wf(),
        sent.content().len() <= received.capacity(),
    ensures
        sent.content().push(0u8).len() <= received.capacity() + 1,
        datagram_kind(sent.content().push(0u8)) == DatagramKind::Data,
        payload(sent.content().push(0u8)) == sent.content(),
{
    lemma_frame_round_trip(sent.content());
}

/// `after` is `before` after one silent receive interval, which made the
/// receive fail when `failed`.
pub open spec fn timed_out(before: Link, after: Link, failed: bool) -> bool {
    &&& after.failures() == (if before.failures() < usize::MAX { before.failures() + 1 } else { 0 })
    &&& failed == (before.failures() >= MAX_FAILURES)
}

proof fn lemma_silent_count(links: Seq<Link>, failed: Seq<bool>, i: int)
    requires
        links.len() == failed.len() + 1,
        failed.len() < usize::MAX,
        links[0].failures() == 0,
        forall|j: int| 0 <= j < failed.len() ==> timed_out(#[trigger] links[j], links[j + 1], failed[j]),
        0 <= i < links.len(),
    ensures
        links[i].failures() == i,
    decreases i,
{
    if i > 0 {
        lemma_silent_count(links, failed, i - 1);
        assert(timed_out(links[i - 1], links[i], failed[i - 1]));
    }
}

/// A fresh link survives exactly [MAX_FAILURES] consecutive silent receive
/// intervals: in a run of timeouts from a fresh link, the receive fails at
/// the interval numbered `i` (from 0) exactly when `i` is at least
/// [MAX_FAILURES].
pub proof fn lemma_silence_tolerance(links: Seq<Link>, failed: Seq<bool>)
    requires
        links.len() == failed.len() + 1,
        failed.len() < usize::MAX,
        links[0].failures() == 0,
        forall|j: int| 0 <= j < failed.len() ==> timed_out(#[trigger] links[j], links[j + 1], failed[j]),
    ensures
        forall|i: int| 0 <= i < failed.len() ==> (#[trigger] failed[i] <==> i >= MAX_FAILURES),
{
    assert forall|i: int| 0 <= i < failed.len() implies (#[trigger] failed[i] <==> i >= MAX_FAILURES) by {
        lemma_silent_count(links, failed, i);
        assert(timed_out(links[i], links[i + 1], failed[i]));
    }
}

/// A link is dead exactly once it has counted at least [MAX_FAILURES]
/// silent intervals, whatever the count beyond that: a link with more
/// failures than another dead link is dead too, and a live link has fewer
/// than [MAX_FAILURES].
pub proof fn lemma_dead_by_count(a: Link, b: Link)
    ensures
        a.failures() >= MAX_FAILURES ==> a.dead(),
        !a.dead() ==> a.failures() < MAX_FAILURES,
        a.dead() && a.failures() <= b.failures() ==> b.dead(),
        a.failures() == 0 ==> !a.dead(),
{
}

/// Deadness survives silence: one more silent interval on a dead link
/// (whose counter has not reached the end of its range) leaves it dead,
/// and the receive that saw it fails.
pub proof fn lemma_dead_stays_dead(before: Link, after: Link, failed: bool)
    requires
        timed_out(before, after, failed),
        before.dead(),
        before.failures() < usize::MAX,
    ensures
        after.dead(),
        failed,
        after.failures() > before.failures(),
{
}

/// Once a run of silent intervals from a fresh link has failed a receive,
/// every later receive of the run fails too and the link is dead from then
/// on.
pub proof fn lemma_silence_is_final(links: Seq<Link>, failed: Seq<bool>)
    requires
        links.len() == failed.len() + 1,
        failed.len() < usize::MAX,
        links[0].failures() == 0,
        forall|j: int| 0 <= j < failed.len() ==> timed_out(#[trigger] links[j], links[j + 1], failed[j]),
    ensures
        forall|i: int, j: int| 0 <= i <= j < failed.len() && #[trigger] failed[i] ==> #[trigger] failed[j],
        forall|i: int| 0 <= i < failed.len() && #[trigger] failed[i] ==> links[i + 1].dead(),
{
    assert forall|i: int, j: int| 0 <= i <= j < failed.len() && #[trigger] failed[i] implies #[trigger] failed[j] by {
        lemma_silent_count(links, failed, i);
        lemma_silent_count(links, failed, j);
        assert(timed_out(links[i], links[i + 1], failed[i]));
        assert(timed_out(links[j], links[j + 1], failed[j]));
    }
    assert forall|i: int| 0 <= i < failed.len() && #[trigger] failed[i] implies links[i + 1].dead() by {
        lemma_silent_count(links, failed, i);
        lemma_silent_count(links, failed, i + 1);
        assert(timed_out(links[i], links[i + 1], failed[i]));
    }
}

} // verus!
