//! Frame delivery: the output kinds a session produces, the frame values
//! handed to sinks, and the strictly serial queue a registration binds.
//!
//! A serial queue hands deliveries out one at a time, in the order they
//! were scheduled. [`lemma_serial_queue_fifo`] states the ordering law:
//! for two frames scheduled in order on one queue, the earlier one is
//! delivered strictly before the later one. No ordering is promised
//! across two different queues.

use vstd::prelude::*;

use crate::geometry::Rect;

verus! {

/// The kind of produced output a registration receives.
#[derive(Clone, Copy, PartialEq, Eq, Structural, Debug)]
pub enum OutputKind {
    Video,
    Audio,
}

/// Delivery status of one produced frame. Backpressure and suspension are
/// signalled here, per frame, never as a session-level error.
#[derive(Clone, Copy, PartialEq, Eq, Structural, Debug)]
pub enum FrameStatus {
    /// A complete frame with new content.
    Complete,
    /// Nothing changed since the previous frame.
    Idle,
    /// The captured content is blank.
    Blank,
    /// Capture is suspended.
    Suspended,
    /// The first frame of a running period.
    Started,
    /// The last frame of a running period.
    Stopped,
}

/// Out-of-band metadata delivered with one frame. Scale factors are
/// carried in hundredths (a factor of 2 is 200).
#[derive(Debug)]
pub struct FrameInfo {
    pub status: FrameStatus,
    pub display_time: u64,
    pub scale_factor_percent: u32,
    pub content_scale_percent: u32,
    pub content_rect: Rect,
    pub dirty_rects: Vec<Rect>,
    pub screen_rect: Rect,
}

/// One unit of captured output: an opaque buffer handle plus metadata.
/// The sink borrows the buffer for the duration of its callback only.
#[derive(Debug)]
pub struct Frame {
    pub buffer: u64,
    pub info: FrameInfo,
}

impl Frame {
    /// A value-identical copy, for scheduling one produced frame on
    /// several queues.
    pub fn duplicate(&self) -> (r: Frame)
        ensures
            r.buffer == self.buffer,
            r.info.status == self.info.status,
            r.info.display_time == self.info.display_time,
            r.info.scale_factor_percent == self.info.scale_factor_percent,
            r.info.content_scale_percent == self.info.content_scale_percent,
            r.info.content_rect == self.info.content_rect,
            r.info.dirty_rects@ == self.info.dirty_rects@,
            r.info.screen_rect == self.info.screen_rect,
    {
        let mut dirty: Vec<Rect> = Vec::new();
        let mut i: usize = 0;
        while i < self.info.dirty_rects.len()
            invariant
                i <= self.info.dirty_rects.len(),
                dirty@ == self.info.dirty_rects@.take(i as int),
            decreases self.info.dirty_rects.len() - i,
        {
            dirty.push(self.info.dirty_rects[i]);
            proof {
                assert(self.info.dirty_rects@.take(i as int + 1)
                    =~= self.info.dirty_rects@.take(i as int).push(self.info.dirty_rects@[i as int]));
            }
            i = i + 1;
        }
        proof {
            assert(self.info.dirty_rects@.take(self.info.dirty_rects@.len() as int)
                =~= self.info.dirty_rects@);
        }
        Frame {
            buffer: self.buffer,
            info: FrameInfo {
                status: self.info.status,
                display_time: self.info.display_time,
                scale_factor_percent: self.info.scale_factor_percent,
                content_scale_percent: self.info.content_scale_percent,
                content_rect: self.info.content_rect,
                dirty_rects: dirty,
                screen_rect: self.info.screen_rect,
            },
        }
    }
}

/// One pending callback: the sink to invoke and the frame it receives.
#[derive(Debug)]
pub struct Delivery {
    pub sink: u64,
    pub kind: OutputKind,
    pub frame: Frame,
}

/// A strictly serial delivery queue. Scheduling appends; delivery removes
/// from the front; nothing reorders in between, so callbacks on one queue
/// observe production order.
#[derive(Debug)]
pub struct SerialQueue {
    pub queue_id: u64,
    pub pending: Vec<Delivery>,
}

impl View for SerialQueue {
    type V = Seq<Delivery>;

    /// The deliveries scheduled and not yet handed out, oldest first.
    open spec fn view(&self) -> Seq<Delivery> {
        self.pending@
    }
}

impl SerialQueue {
    /// An empty queue with the given identity.
    pub fn new(queue_id: u64) -> (q: SerialQueue)
        ensures
            q.queue_id == queue_id,
            q@ == Seq::<Delivery>::empty(),
    {
        SerialQueue { queue_id, pending: Vec::new() }
    }

    /// How many deliveries are pending.
    pub fn len(&self) -> (n: usize)
        ensures
            n == self@.len(),
    {
        self.pending.len()
    }

    /// Appends one delivery behind everything already scheduled.
    pub fn schedule(&mut self, delivery: Delivery)
        ensures
            final(self).queue_id == old(self).queue_id,
            final(self)@ == old(self)@.push(delivery),
    {
        self.pending.push(delivery);
    }

    /// Hands out the oldest pending delivery, or nothing when the queue
    /// is empty. The callback for it returns before the next call can
    /// hand out a later one: the queue is serial.
    pub fn deliver_next(&mut self) -> (r: Option<Delivery>)
        ensures
            final(self).queue_id == old(self).queue_id,
            old(self)@.len() == 0 ==> r is None && final(self)@ == old(self)@,
            old(self)@.len() > 0 ==> r == Some(old(self)@.first()) && final(self)@ == old(self)@.drop_first(),
    {
        if self.pending.len() == 0 {
            None
        } else {
            let d = self.pending.remove(0);
            proof {
                assert(self.pending@ =~= old(self)@.drop_first());
            }
            Some(d)
        }
    }
}

/// The deliveries still pending on a queue that held `q` after `n` calls
/// of `deliver_next`: each call leaves the rest of the queue untouched.
pub open spec fn after_deliveries(q: Seq<Delivery>, n: int) -> Seq<Delivery> {
    q.skip(n)
}

/// Each `deliver_next` call peels exactly the front element: call `n`
/// starts from `after_deliveries(q, n)`, hands out `q[n]`, and leaves
/// `after_deliveries(q, n + 1)` — matching the contract of
/// [`SerialQueue::deliver_next`].
pub proof fn lemma_delivery_step(q: Seq<Delivery>, n: int)
    requires
        0 <= n < q.len(),
    ensures
        after_deliveries(q, n).len() == q.len() - n,
        after_deliveries(q, n).first() == q[n],
        after_deliveries(q, n).drop_first() == after_deliveries(q, n + 1),
{
    assert(q.skip(n).drop_first() =~= q.skip(n + 1));
}

/// The trace a queue hands out when `deliver_next` is called to
/// exhaustion, per that method's contract: the front element, then the
/// drain of what it leaves behind.
pub open spec fn drained(q: Seq<Delivery>) -> Seq<Delivery>
    decreases q.len(),
{
    if q.len() == 0 {
        Seq::empty()
    } else {
        seq![q.first()] + drained(q.drop_first())
    }
}

/// Law: delivery on one serial queue is strictly FIFO. The trace handed
/// out by successive `deliver_next` calls is exactly the scheduled
/// sequence: for two frames scheduled in positions `i` then `j`, the
/// `i`-th delivery callback runs, and returns, strictly before the
/// `j`-th one begins, so the sink observes production order.
pub proof fn lemma_serial_queue_fifo(q: Seq<Delivery>)
    ensures
        drained(q) == q,
    decreases q.len(),
{
    if q.len() == 0 {
        assert(drained(q) =~= q);
    } else {
        lemma_serial_queue_fifo(q.drop_first());
        assert(seq![q.first()] + q.drop_first() =~= q);
    }
}

} // verus!
