//! Fixed-size chunks of bytes read from a TCP stream.

use vstd::prelude::*;

verus! {

/// A chunk of bytes read from a stream: a fixed-size buffer of which the
/// first `size` bytes are meaningful.
pub struct Bytes<const N: usize> {
    bytes: [u8; N],
    size: usize,
}

impl<const N: usize> Bytes<N> {
    /// The whole buffer.
    pub closed spec fn storage(&self) -> Seq<u8> {
        self.bytes@
    }

    /// The number of meaningful bytes.
    pub closed spec fn size(&self) -> nat {
        self.size as nat
    }

    /// The meaningful bytes.
    pub open spec fn data(&self) -> Seq<u8> {
        self.storage().take(self.size() as int)
    }

    /// Creates a chunk whose first `size` bytes of `bytes` are meaningful.
    pub fn new(bytes: [u8; N], size: usize) -> (res: Self)
        ensures
            res.storage() == bytes@,
            res.size() == size,
    {
        Bytes { bytes, size }
    }

    /// Returns the meaningful bytes; `size` may not exceed the buffer.
    pub fn as_slice(&self) -> (res: &[u8])
        requires
            self.size() <= N,
        ensures
            res@ == self.data(),
            res@.len() == self.size(),
            forall|i: int| 0 <= i < self.size() ==> #[trigger] res@[i] == self.storage()[i],
    {
        proof {
            vstd::array::array_len_matches_n(&self.bytes);
        }
        &self.bytes.as_slice()[0..self.size]
    }
}

/// The meaningful bytes of a chunk are exactly its first `size` bytes, as
/// they were read, whatever their values.
pub proof fn lemma_data_is_prefix<const N: usize>(b: Bytes<N>)
    requires
        b.size() <= b.storage().len(),
    ensures
        b.data().len() == b.size(),
        forall|i: int| 0 <= i < b.size() ==> #[trigger] b.data()[i] == b.storage()[i],
{
}

/// A chunk made from a buffer and a size holds the first `size` bytes of
/// that buffer.
pub proof fn lemma_new_keeps_bytes<const N: usize>(b: Bytes<N>, bytes: [u8; N], size: usize)
    requires
        b.storage() == bytes@,
        b.size() == size,
        size <= N,
        bytes@.len() == N,
    ensures
        b.data().len() == size,
        forall|i: int| 0 <= i < size ==> #[trigger] b.data()[i] == bytes@[i],
{
}

} // verus!
