//! The batching step of the queued writer.
//!
//! Many producers push whole frames; the one task that drains concatenates
//! everything queued into a single accumulation buffer and emits it in one
//! write. This module is the sequential core of that step: it pins down what
//! one drain emits. The transport layer supplies the producer-side queue
//! sharing, the pending counter and the mutex around the underlying stream;
//! where it runs its own lock-free queue, this model stands beside it as
//! the library's verified statement of what a drain must emit.

use vstd::prelude::*;

verus! {

/// The concatenation of a sequence of buffers, in order.
pub open spec fn concat_bufs(bufs: Seq<Seq<u8>>) -> Seq<u8>
    decreases bufs.len(),
{
    if bufs.len() == 0 {
        Seq::empty()
    } else {
        concat_bufs(bufs.drop_last()) + bufs.last()
    }
}

/// Where buffer `i` starts inside the concatenation: the total length of the
/// buffers before it.
pub open spec fn buf_offset(bufs: Seq<Seq<u8>>, i: int) -> int
    decreases i,
{
    if i <= 0 {
        0
    } else {
        buf_offset(bufs, i - 1) + bufs[i - 1].len()
    }
}

/// A queue of byte buffers awaiting emission on one stream.
pub struct WriteQueue {
    pending: Vec<Vec<u8>>,
}

impl WriteQueue {
    /// The queued buffers, oldest first.
    pub closed spec fn queued(&self) -> Seq<Seq<u8>> {
        self.pending.deep_view()
    }

    /// An empty queue.
    pub fn new() -> (q: WriteQueue)
        ensures
            q.queued() == Seq::<Seq<u8>>::empty(),
    {
        let q = WriteQueue { pending: Vec::new() };
        proof {
            assert(q.queued() =~~= Seq::<Seq<u8>>::empty());
        }
        q
    }

    /// A producer submits one buffer; it goes to the back of the queue.
    pub fn push(&mut self, data: Vec<u8>)
        ensures
            final(self).queued() == old(self).queued().push(data@),
    {
        let ghost d = data@;
        self.pending.push(data);
        proof {
            assert(final(self).queued() =~~= old(self).queued().push(d));
        }
    }

    /// How many buffers are queued.
    pub fn len(&self) -> (n: usize)
        ensures
            n == self.queued().len(),
    {
        self.pending.len()
    }

    /// Drain everything queued into the accumulation buffer: each queued
    /// buffer is appended exactly once, contiguously, in the order it was
    /// pushed, and the queue is left empty.
    pub fn drain(&mut self, acc: &mut Vec<u8>)
        ensures
            final(self).queued() == Seq::<Seq<u8>>::empty(),
            final(acc)@ == old(acc)@ + concat_bufs(old(self).queued()),
    {
        let ghost q = self.queued();
        let mut i: usize = 0;
        while i < self.pending.len()
            invariant
                i <= self.pending.len(),
                self.queued() == q,
                acc@ == old(acc)@ + concat_bufs(q.take(i as int)),
            decreases self.pending.len() - i,
        {
            let ghost before = acc@;
            acc.extend_from_slice(self.pending[i].as_slice());
            proof {
                assert(acc@ =~= before + q[i as int]);
                assert(q.take(i + 1).drop_last() =~= q.take(i as int));
                assert(q.take(i + 1).last() == q[i as int]);
                assert(acc@ =~= old(acc)@ + concat_bufs(q.take(i + 1)));
            }
            i = i + 1;
        }
        self.pending.truncate(0);
        proof {
            assert(q.take(q.len() as int) =~= q);
            assert(final(self).queued() =~~= Seq::<Seq<u8>>::empty());
        }
    }
}

/// Emission is exact: the drained bytes have the total length of what was
/// queued, and buffer `i` sits unbroken at its offset. Together with
/// `WriteQueue::drain` this is the per-producer guarantee: one producer's
/// buffers are emitted exactly once each, contiguous and in push order.
pub proof fn lemma_emission_exact(bufs: Seq<Seq<u8>>, i: int)
    requires
        0 <= i < bufs.len(),
    ensures
        concat_bufs(bufs).len() == buf_offset(bufs, bufs.len() as int),
        buf_offset(bufs, i) + bufs[i].len() <= concat_bufs(bufs).len(),
        concat_bufs(bufs).subrange(buf_offset(bufs, i), buf_offset(bufs, i) + bufs[i].len() as int)
            == bufs[i],
    decreases bufs.len(),
{
    lemma_concat_len(bufs);
    if i == bufs.len() - 1 {
        lemma_concat_len(bufs.drop_last());
        assert(buf_offset(bufs, i) == concat_bufs(bufs.drop_last()).len()) by {
            lemma_offset_drop_last(bufs, i);
        }
        assert(concat_bufs(bufs).subrange(
            buf_offset(bufs, i),
            buf_offset(bufs, i) + bufs[i].len() as int,
        ) =~= bufs[i]);
    } else {
        lemma_emission_exact(bufs.drop_last(), i);
        assert(bufs.drop_last()[i] == bufs[i]);
        assert(buf_offset(bufs.drop_last(), i) == buf_offset(bufs, i)) by {
            lemma_offset_drop_last(bufs, i);
        }
        let off = buf_offset(bufs, i);
        let ln = bufs[i].len() as int;
        assert(concat_bufs(bufs) == concat_bufs(bufs.drop_last()) + bufs.last());
        lemma_concat_len(bufs.drop_last());
        assert(0 <= off) by {
            lemma_offset_mono(bufs, 0, i);
        }
        assert(off + ln <= concat_bufs(bufs.drop_last()).len()) by {
            lemma_offset_mono(bufs.drop_last(), i + 1, bufs.drop_last().len() as int);
        }
        assert forall|j: int| 0 <= j < ln implies concat_bufs(bufs).subrange(off, off + ln)[j]
            == bufs[i][j] by {
            assert(concat_bufs(bufs)[off + j] == concat_bufs(bufs.drop_last())[off + j]);
            assert(concat_bufs(bufs.drop_last()).subrange(off, off + ln)[j]
                == bufs.drop_last()[i][j]);
        }
        assert(concat_bufs(bufs).subrange(off, off + ln) =~= bufs[i]);
    }
}

/// Offsets grow with the index: later buffers start no earlier.
proof fn lemma_offset_mono(bufs: Seq<Seq<u8>>, i: int, j: int)
    requires
        0 <= i <= j <= bufs.len(),
    ensures
        buf_offset(bufs, i) <= buf_offset(bufs, j),
    decreases j - i,
{
    if i < j {
        lemma_offset_mono(bufs, i, j - 1);
    }
}

/// The concatenation's length is the sum of the buffer lengths.
proof fn lemma_concat_len(bufs: Seq<Seq<u8>>)
    ensures
        concat_bufs(bufs).len() == buf_offset(bufs, bufs.len() as int),
    decreases bufs.len(),
{
    if bufs.len() > 0 {
        lemma_concat_len(bufs.drop_last());
        lemma_offset_drop_last(bufs, bufs.len() - 1);
    }
}

/// Offsets up to `i` ignore the buffers at and after `i`.
proof fn lemma_offset_drop_last(bufs: Seq<Seq<u8>>, i: int)
    requires
        0 <= i < bufs.len(),
    ensures
        buf_offset(bufs.drop_last(), i) == buf_offset(bufs, i),
    decreases i,
{
    if i > 0 {
        lemma_offset_drop_last(bufs, i - 1);
    }
}

} // verus!
