//! The relay channel: a bounded FIFO queue of owned byte chunks, handed from
//! the task that read them off one transport to the task that writes them out
//! the other.
//!
//! Each element is an owned copy of one transport read, so no two tasks ever
//! alias a scratch buffer: ownership of the bytes moves through the queue.
//! The channel keeps, as ghost state, the full history of chunks ever
//! submitted and ever delivered; its well-formedness invariant ties the two
//! histories to the queue, which is what the order-preservation law rests on.

use vstd::prelude::*;
use vstd::seq_lib::lemma_flatten_concat;

verus! {

/// A bounded single-producer, single-consumer FIFO queue of byte chunks.
///
/// `try_send` refuses a chunk (handing it back untouched) exactly when the
/// queue already holds `cap()` chunks: backpressure, never silent loss. The
/// caller is expected to suspend and offer the same chunk again once the
/// consumer has drained a slot.
pub struct RelayChannel {
    queue: Vec<Vec<u8>>,
    capacity: usize,
    submitted: Ghost<Seq<Seq<u8>>>,
    delivered: Ghost<Seq<Seq<u8>>>,
}

/// How one `try_send` call relates the channel before (`pre`) and after
/// (`post`) the call: `accepted` exactly when a slot was free; on acceptance
/// the chunk is appended, otherwise nothing changes. Delivery history and
/// capacity never change on a send.
pub open spec fn send_transition(
    pre: RelayChannel,
    post: RelayChannel,
    chunk: Seq<u8>,
    accepted: bool,
) -> bool {
    &&& post.cap() == pre.cap()
    &&& post.delivered() == pre.delivered()
    &&& accepted == (pre.pending().len() < pre.cap())
    &&& if accepted {
            &&& post.pending() == pre.pending().push(chunk)
            &&& post.submitted() == pre.submitted().push(chunk)
        } else {
            &&& post.pending() == pre.pending()
            &&& post.submitted() == pre.submitted()
        }
}

/// How one `try_receive` call relates the channel before and after: the
/// oldest pending chunk comes out, exactly when one is pending. Submission
/// history and capacity never change on a receive.
pub open spec fn receive_transition(
    pre: RelayChannel,
    post: RelayChannel,
    out: Option<Seq<u8>>,
) -> bool {
    &&& post.cap() == pre.cap()
    &&& post.submitted() == pre.submitted()
    &&& if pre.pending().len() > 0 {
            &&& out == Some(pre.pending().first())
            &&& post.pending() == pre.pending().drop_first()
            &&& post.delivered() == pre.delivered().push(pre.pending().first())
        } else {
            &&& out is None
            &&& post.pending() == pre.pending()
            &&& post.delivered() == pre.delivered()
        }
}

impl RelayChannel {
    /// The chunks currently queued, oldest first.
    pub closed spec fn pending(&self) -> Seq<Seq<u8>> {
        self.queue@.map(|i: int, v: Vec<u8>| v@)
    }

    /// The capacity the channel was created with.
    pub closed spec fn cap(&self) -> nat {
        self.capacity as nat
    }

    /// Every chunk ever accepted by `try_send`, in acceptance order.
    pub closed spec fn submitted(&self) -> Seq<Seq<u8>> {
        self.submitted@
    }

    /// Every chunk ever handed out by `try_receive`, in hand-out order.
    pub closed spec fn delivered(&self) -> Seq<Seq<u8>> {
        self.delivered@
    }

    /// Well-formedness: the queue never exceeds its capacity, and the chunks
    /// submitted so far are exactly the chunks delivered so far followed by
    /// the chunks still pending.
    pub open spec fn wf(&self) -> bool {
        &&& self.cap() >= 1
        &&& self.pending().len() <= self.cap()
        &&& self.submitted() == self.delivered() + self.pending()
    }

    /// An empty channel with the given capacity.
    pub fn new(capacity: usize) -> (c: RelayChannel)
        requires
            capacity >= 1,
        ensures
            c.wf(),
            c.cap() == capacity,
            c.pending() == Seq::<Seq<u8>>::empty(),
            c.submitted() == Seq::<Seq<u8>>::empty(),
            c.delivered() == Seq::<Seq<u8>>::empty(),
    {
        let c = RelayChannel {
            queue: Vec::new(),
            capacity,
            submitted: Ghost(Seq::empty()),
            delivered: Ghost(Seq::empty()),
        };
        proof {
            assert(c.pending() =~= Seq::<Seq<u8>>::empty());
            assert(c.submitted() =~= c.delivered() + c.pending());
        }
        c
    }

    /// Offer a chunk. Accepted (and queued last) exactly when a slot is
    /// free; when the channel is full the same chunk comes back untouched
    /// and the caller must suspend and retry: bytes are never dropped here.
    pub fn try_send(&mut self, chunk: Vec<u8>) -> (r: Result<(), Vec<u8>>)
        requires
            old(self).wf(),
        ensures
            final(self).wf(),
            send_transition(*old(self), *final(self), chunk@, r is Ok),
            (r matches Err(back) ==> back@ == chunk@),
    {
        let ghost data: Seq<u8> = chunk@;
        if self.queue.len() < self.capacity {
            let ghost pre_queue: Seq<Vec<u8>> = self.queue@;
            self.queue.push(chunk);
            proof {
                self.submitted@ = self.submitted@.push(data);
                assert(self.pending() =~= pre_queue.map(|i: int, v: Vec<u8>| v@).push(data));
                assert(self.submitted() =~= self.delivered() + self.pending());
            }
            Ok(())
        } else {
            Err(chunk)
        }
    }

    /// Take the oldest pending chunk, if any. Returns `None` exactly when
    /// the channel is empty; otherwise the chunk comes out with its bytes
    /// exactly as submitted.
    pub fn try_receive(&mut self) -> (r: Option<Vec<u8>>)
        requires
            old(self).wf(),
        ensures
            final(self).wf(),
            receive_transition(*old(self), *final(self), match r {
                Some(ref c) => Some(c@),
                None => None,
            }),
    {
        if self.queue.len() > 0 {
            let ghost pre_queue: Seq<Vec<u8>> = self.queue@;
            let chunk = self.queue.remove(0);
            proof {
                self.delivered@ = self.delivered@.push(chunk@);
                assert(self.pending() =~= pre_queue.map(
                    |i: int, v: Vec<u8>| v@,
                ).drop_first());
                assert(self.submitted() =~= self.delivered() + self.pending());
            }
            Some(chunk)
        } else {
            None
        }
    }

    /// How many chunks are pending.
    pub fn len(&self) -> (n: usize)
        ensures
            n == self.pending().len(),
    {
        self.queue.len()
    }

    /// The capacity the channel was created with.
    pub fn capacity(&self) -> (n: usize)
        ensures
            n == self.cap(),
    {
        self.capacity
    }

    /// Whether nothing is pending.
    pub fn is_empty(&self) -> (b: bool)
        ensures
            b == (self.pending().len() == 0),
    {
        self.queue.len() == 0
    }

    /// Whether a further `try_send` would be refused.
    pub fn is_full(&self) -> (b: bool)
        ensures
            b == (self.pending().len() == self.cap()),
    {
        self.queue.len() == self.capacity
    }
}

/// Order preservation: at every moment the chunks delivered are a prefix of
/// the chunks submitted, so the byte stream seen by the consumer is a prefix
/// of the concatenation of the producer's writes, in order and without
/// reordering; once the queue is drained the two byte streams are equal.
pub proof fn lemma_order_preservation(c: &RelayChannel)
    requires
        c.wf(),
    ensures
        c.delivered().is_prefix_of(c.submitted()),
        c.delivered().flatten().is_prefix_of(c.submitted().flatten()),
        c.pending().len() == 0 ==> c.delivered().flatten() == c.submitted().flatten(),
{
    lemma_flatten_concat(c.delivered(), c.pending());
    assert(c.submitted().flatten() =~= c.delivered().flatten() + c.pending().flatten());
    assert(c.delivered() =~= c.submitted().subrange(0, c.delivered().len() as int));
    assert(c.delivered().flatten() =~= c.submitted().flatten().subrange(
        0,
        c.delivered().flatten().len() as int,
    ));
    if c.pending().len() == 0 {
        assert(c.pending().flatten() =~= Seq::<u8>::empty());
        assert(c.delivered().flatten() =~= c.submitted().flatten());
    }
}

/// Buffer safety: every chunk is an owned copy, so a later read can never
/// overwrite bytes already handed off — the chunk delivered at position `i`
/// is byte for byte the chunk submitted at position `i`, and every chunk
/// still pending is the corresponding not-yet-delivered submitted chunk.
pub proof fn lemma_chunk_integrity(c: &RelayChannel)
    requires
        c.wf(),
    ensures
        forall|i: int| 0 <= i < c.delivered().len() ==> c.delivered()[i] == c.submitted()[i],
        forall|j: int|
            0 <= j < c.pending().len() ==> c.pending()[j] == c.submitted()[c.delivered().len()
                + j],
{
}

/// Receive progress: draining a channel depends on that channel alone — a
/// receive yields the oldest pending chunk exactly when one is pending,
/// whatever the state of anything else (in particular of the opposite
/// direction's channel), so a stalled writer on one direction never blocks
/// the other direction's hand-offs.
pub proof fn lemma_receive_progress(pre: RelayChannel, post: RelayChannel, out: Option<Seq<u8>>)
    requires
        pre.wf(),
        receive_transition(pre, post, out),
    ensures
        (out is Some) <==> pre.pending().len() > 0,
        out is Some ==> out == Some(pre.pending().first()),
        out is Some ==> post.delivered().flatten() == pre.delivered().flatten()
            + pre.pending().first(),
{
    if out is Some {
        lemma_flatten_concat(pre.delivered(), seq![pre.pending().first()]);
        assert(pre.delivered() + seq![pre.pending().first()] =~= pre.delivered().push(
            pre.pending().first(),
        ));
        seq![pre.pending().first()].lemma_flatten_one_element();
        assert(post.delivered().flatten() =~= pre.delivered().flatten() + pre.pending().first());
    }
}

/// Backpressure boundary: a send is accepted exactly when the channel holds
/// fewer chunks than its capacity; a refused send leaves the channel exactly
/// as it was, so the only consequence of a full channel is that the producer
/// must wait — no chunk is ever lost to a full channel.
pub proof fn lemma_backpressure_boundary(
    pre: RelayChannel,
    post: RelayChannel,
    chunk: Seq<u8>,
    accepted: bool,
)
    requires
        pre.wf(),
        send_transition(pre, post, chunk, accepted),
    ensures
        accepted <==> pre.pending().len() < pre.cap(),
        !accepted ==> pre.pending().len() == pre.cap(),
        !accepted ==> post.pending() == pre.pending() && post.submitted() == pre.submitted(),
        accepted ==> post.submitted().flatten() == pre.submitted().flatten() + chunk,
{
    if accepted {
        lemma_flatten_concat(pre.submitted(), seq![chunk]);
        assert(pre.submitted() + seq![chunk] =~= pre.submitted().push(chunk));
        seq![chunk].lemma_flatten_one_element();
        assert(post.submitted().flatten() =~= pre.submitted().flatten() + chunk);
    }
}

} // verus!
