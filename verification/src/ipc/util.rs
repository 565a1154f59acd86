//! IPC message buffers.

use vstd::prelude::*;

verus! {

/// The sequence of `n` zero bytes.
pub open spec fn zeros(n: nat) -> Seq<u8> {
    Seq::new(n, |i: int| 0u8)
}

/// Content of a message after resizing it to `len` bytes: the first `len`
/// bytes of the old content, padded with zeros when the message grows.
pub open spec fn resized(content: Seq<u8>, len: nat) -> Seq<u8> {
    if len <= content.len() {
        content.take(len as int)
    } else {
        content + zeros((len - content.len()) as nat)
    }
}

/// Number of bytes of `buf` that a write accepts into a message holding
/// `content` with room for `max_size` bytes.
pub open spec fn write_count(content: Seq<u8>, max_size: nat, buf: Seq<u8>) -> nat {
    let room: nat = if content.len() <= max_size { (max_size - content.len()) as nat } else { 0nat };
    if buf.len() <= room { buf.len() } else { room }
}

/// Content of a message after writing `buf` into it.
pub open spec fn written(content: Seq<u8>, max_size: nat, buf: Seq<u8>) -> Seq<u8> {
    content + buf.take(write_count(content, max_size, buf) as int)
}

/// Represents an IPC message.
///
/// The buffer holds one byte more than the largest message: that byte closes
/// the datagram on the wire. Every byte past the current content is zero.
#[derive(Debug)]
pub struct Message {
    buffer: Vec<u8>,
    len: usize,
}

impl Message {
    /// The message is well formed: its content fits in the maximum size and
    /// every unused slot of the buffer is zero.
    pub closed spec fn wf(&self) -> bool {
        &&& 1 <= self.buffer@.len() <= usize::MAX
        &&& self.len < self.buffer@.len()
        &&& forall|i: int| self.len <= i < self.buffer@.len() ==> self.buffer@[i] == 0u8
    }

    /// The bytes currently held by the message.
    pub closed spec fn content(&self) -> Seq<u8> {
        self.buffer@.take(self.len as int)
    }

    /// The maximum size of a message held by this buffer.
    pub closed spec fn capacity(&self) -> nat {
        (self.buffer@.len() - 1) as nat
    }

    /// Every well formed message holds at most its maximum size.
    pub proof fn lemma_content_fits(&self)
        requires
            self.wf(),
        ensures
            self.content().len() <= self.capacity(),
            self.capacity() < usize::MAX,
    {
    }

    /// Creates a new [Message](Message) for use with IPC routines.
    ///
    /// `max_size` is the maximum size of a message to be sent or received by
    /// subsequent IPC routines; the new message holds `max_size` zero bytes.
    pub fn new(max_size: usize) -> (res: Self)
        requires
            max_size < usize::MAX,
        ensures
            res.wf(),
            res.capacity() == max_size,
            res.content() == zeros(max_size as nat),
    {
        let buffer: Vec<u8> = vec![0u8; max_size + 1];
        let res = Message { buffer, len: max_size };
        assert(res.content() =~= zeros(max_size as nat));
        res
    }

    /// Returns the maximum size of a message to be sent or received by
    /// subsequent IPC routines when using this [Message](Message) instance.
    pub fn max_size(&self) -> (res: usize)
        requires
            self.wf(),
        ensures
            res == self.capacity(),
    {
        self.buffer.len() - 1
    }

    /// Returns the current size of the message.
    pub fn len(&self) -> (res: usize)
        requires
            self.wf(),
        ensures
            res == self.content().len(),
    {
        self.len
    }

    /// Returns true when the message holds no byte.
    pub fn is_empty(&self) -> (res: bool)
        requires
            self.wf(),
        ensures
            res == (self.content().len() == 0),
    {
        self.len == 0
    }

    /// Sets the current size of this [Message](Message) instance. This
    /// automatically zeroes out all unused slots.
    ///
    /// `len` may not exceed the maximum size of the message.
    pub fn set_size(&mut self, len: usize)
        requires
            old(self).wf(),
            len <= old(self).capacity(),
        ensures
            final(self).wf(),
            final(self).capacity() == old(self).capacity(),
            final(self).content() == resized(old(self).content(), len as nat),
    {
        let ghost old_buf = self.buffer@;
        let ghost old_len = self.len;
        let n: usize = self.buffer.len();
        let mut i: usize = len;
        while i < n
            invariant
                len <= i <= n,
                n == self.buffer@.len(),
                n == old_buf.len(),
                forall|j: int| 0 <= j < len ==> self.buffer@[j] == old_buf[j],
                forall|j: int| len <= j < i ==> self.buffer@[j] == 0u8,
                forall|j: int| i <= j < n ==> self.buffer@[j] == old_buf[j],
            decreases n - i,
        {
            self.buffer[i] = 0u8;
            i = i + 1;
        }
        self.len = len;
        proof {
            let old_content = old_buf.take(old_len as int);
            if len <= old_len {
                assert(self.content() =~= resized(old_content, len as nat));
            } else {
                assert forall|j: int| 0 <= j < len implies #[trigger] self.content()[j]
                    == resized(old_content, len as nat)[j] by {
                    if j >= old_len {
                        assert(old_buf[j] == 0u8);
                    }
                }
                assert(self.content() =~= resized(old_content, len as nat));
            }
        }
    }

    /// Returns the bytes of the message.
    pub fn as_slice(&self) -> (res: &[u8])
        requires
            self.wf(),
        ensures
            res@ == self.content(),
    {
        &self.buffer.as_slice()[0..self.len]
    }

    /// Overwrites the content of the message with `src`, which must have the
    /// size of the message.
    pub fn copy_from_slice(&mut self, src: &[u8])
        requires
            old(self).wf(),
            src@.len() == old(self).content().len(),
        ensures
            final(self).wf(),
            final(self).capacity() == old(self).capacity(),
            final(self).content() == src@,
    {
        let ghost old_buf = self.buffer@;
        let n: usize = self.len;
        let mut i: usize = 0;
        while i < n
            invariant
                i <= n,
                n == self.len,
                n == src@.len(),
                n < self.buffer@.len(),
                self.buffer@.len() == old_buf.len(),
                forall|j: int| 0 <= j < i ==> self.buffer@[j] == src@[j],
                forall|j: int| i <= j < self.buffer@.len() ==> self.buffer@[j] == old_buf[j],
                forall|j: int| n <= j < old_buf.len() ==> old_buf[j] == 0u8,
            decreases n - i,
        {
            self.buffer[i] = src[i];
            i = i + 1;
        }
        assert(self.content() =~= src@);
        assert forall|j: int| self.len <= j < self.buffer@.len() implies self.buffer@[j] == 0u8 by {
            assert(self.buffer@[j] == old_buf[j]);
        }
    }

    /// Appends as much of `buf` as fits in the message and returns the number
    /// of bytes written.
    pub fn write(&mut self, buf: &[u8]) -> (res: usize)
        requires
            old(self).wf(),
        ensures
            final(self).wf(),
            final(self).capacity() == old(self).capacity(),
            res == write_count(old(self).content(), old(self).capacity(), buf@),
            final(self).content() == written(old(self).content(), old(self).capacity(), buf@),
    {
        let ghost old_buf = self.buffer@;
        let room: usize = self.buffer.len() - 1 - self.len;
        let count: usize = if buf.len() < room { buf.len() } else { room };
        let start: usize = self.len;
        let mut i: usize = 0;
        while i < count
            invariant
                i <= count,
                start + count < self.buffer@.len(),
                self.buffer@.len() <= usize::MAX,
                forall|j: int| start <= j < old_buf.len() ==> old_buf[j] == 0u8,
                count <= buf@.len(),
                start == self.len,
                self.buffer@.len() == old_buf.len(),
                forall|j: int| 0 <= j < start ==> self.buffer@[j] == old_buf[j],
                forall|j: int| 0 <= j < i ==> self.buffer@[start + j] == buf@[j],
                forall|j: int| start + i <= j < self.buffer@.len() ==> self.buffer@[j] == old_buf[j],
            decreases count - i,
        {
            self.buffer[start + i] = buf[i];
            i = i + 1;
        }
        self.len = start + count;
        assert forall|j: int| self.len <= j < self.buffer@.len() implies self.buffer@[j] == 0u8 by {
            assert(self.buffer@[j] == old_buf[j]);
        }
        assert(self.content() =~= old_buf.take(start as int) + buf@.take(count as int));
        count
    }

    /// The message as it goes on the wire: its content followed by the
    /// closing byte, which is always zero.
    pub fn frame(&self) -> (res: &[u8])
        requires
            self.wf(),
        ensures
            res@ == self.content().push(0u8),
    {
        let res = &self.buffer.as_slice()[0..self.len + 1];
        assert(res@ =~= self.content().push(0u8));
        res
    }
}

/// Writing `a` then `b` into a message leaves what writing `a` followed
/// by `b` at once leaves, when both fit.
pub proof fn lemma_writes_accumulate(content: Seq<u8>, max_size: nat, a: Seq<u8>, b: Seq<u8>)
    requires
        content.len() + a.len() + b.len() <= max_size,
    ensures
        written(written(content, max_size, a), max_size, b) == written(content, max_size, a + b),
        written(content, max_size, a + b) == content + a + b,
{
    assert(a.take(a.len() as int) =~= a);
    assert(b.take(b.len() as int) =~= b);
    assert((a + b).take((a + b).len() as int) =~= a + b);
    assert(content + a + b =~= content + (a + b));
}

/// A write never takes more than the room left, so a message never holds
/// more than its maximum size; when the room is enough the whole buffer is
/// taken.
pub proof fn lemma_write_bounded(content: Seq<u8>, max_size: nat, buf: Seq<u8>)
    requires
        content.len() <= max_size,
    ensures
        written(content, max_size, buf).len() <= max_size,
        written(content, max_size, buf).len() == content.len() + write_count(content, max_size, buf),
        content.len() + buf.len() <= max_size ==> write_count(content, max_size, buf) == buf.len(),
{
}

/// Resizing a message to zero empties it, and resizing it to a size it
/// already holds keeps a prefix of its content.
pub proof fn lemma_resize(content: Seq<u8>, len: nat)
    ensures
        resized(content, 0) == Seq::<u8>::empty(),
        resized(content, len).len() == len,
        forall|i: int| 0 <= i < len && i < content.len() ==> #[trigger] resized(content, len)[i] == content[i],
        forall|i: int| content.len() <= i < len ==> #[trigger] resized(content, len)[i] == 0u8,
{
    assert(resized(content, 0) =~= Seq::<u8>::empty());
}

/// A write takes as many bytes as fit: when the buffer does not fit in the
/// room left, exactly the room left is taken, and the message ends up full
/// with the first bytes of the buffer appended.
pub proof fn lemma_write_fills_room(content: Seq<u8>, max_size: nat, buf: Seq<u8>)
    requires
        content.len() <= max_size,
        content.len() + buf.len() > max_size,
    ensures
        write_count(content, max_size, buf) == max_size - content.len(),
        written(content, max_size, buf).len() == max_size,
        written(content, max_size, buf).take(content.len() as int) == content,
        forall|i: int| 0 <= i < max_size - content.len() ==>
            #[trigger] written(content, max_size, buf)[content.len() + i] == buf[i],
{
    assert(written(content, max_size, buf).take(content.len() as int) =~= content);
}

/// A write never writes less than it can: it takes the smaller of the
/// buffer's length and the room left, and the appended bytes are the first
/// bytes of the buffer, in order.
pub proof fn lemma_write_count_is_min(content: Seq<u8>, max_size: nat, buf: Seq<u8>)
    requires
        content.len() <= max_size,
    ensures
        write_count(content, max_size, buf) <= buf.len(),
        write_count(content, max_size, buf) <= max_size - content.len(),
        write_count(content, max_size, buf) == buf.len()
            || write_count(content, max_size, buf) == max_size - content.len(),
        forall|i: int| 0 <= i < write_count(content, max_size, buf) ==>
            #[trigger] written(content, max_size, buf)[content.len() + i] == buf[i],
        forall|i: int| 0 <= i < content.len() ==> #[trigger] written(content, max_size, buf)[i] == content[i],
{
}

} // verus!
