//! A bounded queue of frames between the contexts that produce and consume
//! them. The queue never blocks: when it is full, the oldest frame is
//! dropped to make room for the newest.

use crate::frame::{Frame, FrameView};
use ringbuffer::{ConstGenericRingBuffer, RingBuffer};
use vstd::prelude::*;

verus! {

/// Number of frames that a queue holds.
pub const QUEUE_DEPTH: usize = 10;

/// ringbuffer's fixed-capacity ring, opaque to the verifier.
#[verifier::external_type_specification]
#[verifier::external_body]
#[verifier::reject_recursive_types(T)]
pub struct ExConstGenericRingBuffer<T, const CAP: usize>(ConstGenericRingBuffer<T, CAP>);

/// The frames that a ring holds, oldest first.
pub uninterp spec fn queued_frames(ring: ConstGenericRingBuffer<Frame, 10>) -> Seq<FrameView>;

/// A queue's content after one more frame: a full queue drops its oldest
/// frame to make room, a queue with room just takes the frame.
pub open spec fn queue_after_push(queued: Seq<FrameView>, frame: FrameView) -> Seq<FrameView> {
    if queued.len() >= QUEUE_DEPTH {
        queued.drop_first().push(frame)
    } else {
        queued.push(frame)
    }
}

/// Calls `ConstGenericRingBuffer::new`. Trusted: the new ring is empty.
#[verifier::external_body]
fn ring_new() -> (ring: ConstGenericRingBuffer<Frame, 10>)
    ensures
        queued_frames(ring) == Seq::<FrameView>::empty(),
{
    ConstGenericRingBuffer::new()
}

/// Calls `RingBuffer::push`. Trusted: the frame becomes the newest in the
/// ring, and a full ring drops its oldest frame for it. (The ring counts
/// its pushes in a `usize` and is not meant to see more than that many.)
#[verifier::external_body]
fn ring_push(ring: &mut ConstGenericRingBuffer<Frame, 10>, frame: Frame)
    ensures
        queued_frames(*final(ring)) == queue_after_push(queued_frames(*old(ring)), frame@),
{
    ring.push(frame);
}

/// Calls `RingBuffer::dequeue`. Trusted: the oldest frame leaves the ring
/// and is returned; an empty ring stays empty and gives nothing.
#[verifier::external_body]
fn ring_dequeue(ring: &mut ConstGenericRingBuffer<Frame, 10>) -> (frame: Option<Frame>)
    ensures
        queued_frames(*old(ring)).len() == 0 ==> frame is None && queued_frames(*final(ring))
            == queued_frames(*old(ring)),
        queued_frames(*old(ring)).len() > 0 ==> (frame matches Some(f) && f@ == queued_frames(
            *old(ring),
        ).first()) && queued_frames(*final(ring)) == queued_frames(*old(ring)).drop_first(),
{
    ring.dequeue()
}

/// A queue of at most `QUEUE_DEPTH` frames.
#[derive(Debug)]
pub struct FrameQueue {
    pub ring: ConstGenericRingBuffer<Frame, 10>,
}

impl View for FrameQueue {
    type V = Seq<FrameView>;

    /// The queued frames, oldest first.
    open spec fn view(&self) -> Seq<FrameView> {
        queued_frames(self.ring)
    }
}

impl FrameQueue {
    /// An empty queue.
    pub fn new() -> (queue: FrameQueue)
        ensures
            queue@ == Seq::<FrameView>::empty(),
    {
        FrameQueue { ring: ring_new() }
    }

    /// Queues a frame as the newest. A full queue drops its oldest frame.
    pub fn push(&mut self, frame: Frame)
        ensures
            final(self)@ == queue_after_push(old(self)@, frame@),
            old(self)@.len() <= QUEUE_DEPTH ==> final(self)@.len() <= QUEUE_DEPTH,
    {
        ring_push(&mut self.ring, frame);
    }

    /// Takes the oldest frame out of the queue.
    pub fn dequeue(&mut self) -> (frame: Option<Frame>)
        ensures
            old(self)@.len() == 0 ==> frame is None && final(self)@ == old(self)@,
            old(self)@.len() > 0 ==> (frame matches Some(f) && f@ == old(self)@.first())
                && final(self)@ == old(self)@.drop_first(),
    {
        ring_dequeue(&mut self.ring)
    }
}

/// Drop policy: after a push the newest frame is the one pushed, a queue
/// that had room lost nothing, and a full queue lost exactly its oldest
/// frame; frames leave in the order in which they came.
pub proof fn lemma_queue_drop_policy(queued: Seq<FrameView>, frame: FrameView)
    requires
        queued.len() <= QUEUE_DEPTH,
    ensures
        queue_after_push(queued, frame).last() == frame,
        queued.len() < QUEUE_DEPTH ==> queue_after_push(queued, frame).drop_last() == queued,
        queued.len() == QUEUE_DEPTH ==> queue_after_push(queued, frame).drop_last()
            == queued.drop_first(),
        queue_after_push(queued, frame).len() <= QUEUE_DEPTH,
{
    let after = queue_after_push(queued, frame);
    if queued.len() < QUEUE_DEPTH {
        assert(after.drop_last() =~= queued);
    } else {
        assert(after.drop_last() =~= queued.drop_first());
    }
}

} // verus!
