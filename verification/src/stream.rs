//! The streaming iterator's bounded chunk buffer.
//!
//! A pump at the transport edge pushes chunks (or one fault) into the
//! buffer; the caller pulls them in order. The sequence is lazy, finite and
//! non-restartable: end-of-stream is a distinguished `Exhausted` outcome,
//! not an error, and an upstream fault surfaces at the pull that reaches
//! it. Closing early releases the underlying stream exactly once — the
//! first close tells the transport edge to release, every later close is a
//! no-op.

use vstd::prelude::*;

use crate::error::Error;

verus! {

/// One buffered item: a data chunk or the upstream fault that ended the
/// stream.
#[derive(Debug)]
pub enum ChunkItem {
    /// A chunk of body bytes.
    Data(Vec<u8>),
    /// The upstream transport fault, surfaced at the pull that reaches it.
    Fault(Error),
}

/// What one pull observes.
#[derive(Debug)]
pub enum PullOutcome {
    /// The next chunk, in arrival order.
    Chunk(Vec<u8>),
    /// The upstream fault, at its position in the stream.
    Fault(Error),
    /// Nothing buffered yet and the source still live: the caller must
    /// wait for the pump.
    Pending,
    /// The stream ended: every chunk was already pulled.
    Exhausted,
}

/// The bounded buffer between the transport's chunk source and the pulling
/// caller.
#[derive(Debug)]
pub struct ChunkQueue {
    /// The buffered items, in arrival order.
    pub buf: Vec<ChunkItem>,
    /// The buffer capacity the queue was created with.
    pub cap: usize,
    /// Whether the caller closed the stream.
    pub closed: bool,
    /// Whether the source has no more items to push.
    pub source_done: bool,
}

impl ChunkQueue {
    /// Whether the queue respects its bound.
    pub open spec fn wf(&self) -> bool {
        self.buf@.len() <= self.cap
    }

    /// A fresh queue with the given capacity.
    pub fn new(cap: usize) -> (r: ChunkQueue)
        ensures
            r.buf@.len() == 0,
            r.cap == cap,
            !r.closed,
            !r.source_done,
            r.wf(),
    {
        ChunkQueue { buf: Vec::new(), cap, closed: false, source_done: false }
    }

    /// The pump offers one item. It is accepted exactly when the caller has
    /// not closed the stream and the buffer has room; a rejected offer
    /// after close tells the pump to stop. Accepted items keep arrival
    /// order.
    pub fn push(&mut self, item: ChunkItem) -> (accepted: bool)
        requires
            old(self).wf(),
        ensures
            final(self).wf(),
            accepted == (!old(self).closed && old(self).buf@.len() < old(self).cap),
            accepted ==> final(self).buf@ == old(self).buf@ + seq![item],
            !accepted ==> final(self).buf@ == old(self).buf@,
            final(self).closed == old(self).closed,
            final(self).source_done == old(self).source_done,
            final(self).cap == old(self).cap,
    {
        if self.closed || self.buf.len() >= self.cap {
            return false;
        }
        self.buf.push(item);
        proof {
            assert(self.buf@ =~= old(self).buf@ + seq![item]);
        }
        true
    }

    /// The pump announces that the source has no more items.
    pub fn finish(&mut self)
        ensures
            *final(self) == (ChunkQueue { source_done: true, ..*old(self) }),
    {
        self.source_done = true;
    }

    /// The caller pulls the next item: the oldest buffered item, in
    /// arrival order; `Exhausted` once the source is done and the buffer
    /// drained; `Pending` while the source is live but nothing is buffered
    /// yet. A closed stream is `Exhausted` for its caller.
    pub fn pull(&mut self) -> (r: PullOutcome)
        requires
            old(self).wf(),
        ensures
            final(self).wf(),
            final(self).closed == old(self).closed,
            final(self).source_done == old(self).source_done,
            final(self).cap == old(self).cap,
            old(self).closed ==> (r is Exhausted && final(self).buf@ == old(self).buf@),
            !old(self).closed && old(self).buf@.len() > 0 ==> {
                &&& final(self).buf@ == old(self).buf@.drop_first()
                &&& match old(self).buf@[0] {
                    ChunkItem::Data(d) => (r matches PullOutcome::Chunk(c) && c@ == d@),
                    ChunkItem::Fault(e) => r == PullOutcome::Fault(e),
                }
            },
            !old(self).closed && old(self).buf@.len() == 0 ==> {
                &&& final(self).buf@ == old(self).buf@
                &&& (if old(self).source_done {
                    r is Exhausted
                } else {
                    r is Pending
                })
            },
    {
        if self.closed {
            return PullOutcome::Exhausted;
        }
        if self.buf.len() > 0 {
            let item = self.buf.remove(0);
            match item {
                ChunkItem::Data(d) => PullOutcome::Chunk(d),
                ChunkItem::Fault(e) => PullOutcome::Fault(e),
            }
        } else if self.source_done {
            PullOutcome::Exhausted
        } else {
            PullOutcome::Pending
        }
    }

    /// The caller closes the stream, drained or not. The buffered items
    /// are discarded, later offers from the pump are rejected, and the
    /// result says whether the transport edge must release the underlying
    /// stream now: `true` exactly on the first close, so the resources are
    /// released exactly once however often the stream is closed.
    pub fn close(&mut self) -> (do_release: bool)
        ensures
            final(self).closed,
            final(self).buf@.len() == 0,
            final(self).source_done == old(self).source_done,
            final(self).cap == old(self).cap,
            do_release == !old(self).closed,
            final(self).wf(),
    {
        let was_closed = self.closed;
        self.closed = true;
        self.buf = Vec::new();
        !was_closed
    }
}

/// Closing is idempotent and releases exactly once: after any close the
/// queue is closed, and a second close never asks for another release.
pub proof fn lemma_close_releases_once(q0: ChunkQueue, q1: ChunkQueue, r1: bool, q2: ChunkQueue, r2: bool)
    requires
        q1.closed,
        r1 == !q0.closed,
        q2.closed,
        r2 == !q1.closed,
    ensures
        r2 == false,
        !q0.closed ==> r1,
{
}

} // verus!
