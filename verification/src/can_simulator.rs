//! A synthetic source of frames: one known frame after another, queued for
//! the control loop as if they had come from the bus.

use crate::frame::{Frame, FrameId, FrameView};
use crate::queue::{queue_after_push, FrameQueue};
use vstd::prelude::*;

verus! {

/// Number of updates after which the sequence of frames starts over.
pub const SEQUENCE_LENGTH: u64 = 23;

/// The generator of synthetic frames with its queue.
#[derive(Debug)]
pub struct CanSimulator {
    pub txbuf: FrameQueue,
    pub i: u64,
}

/// The generator as plain mathematical values.
pub ghost struct CanSimulatorView {
    /// The queued frames, oldest first.
    pub queued: Seq<FrameView>,
    /// Number of updates so far.
    pub i: u64,
}

impl View for CanSimulator {
    type V = CanSimulatorView;

    open spec fn view(&self) -> CanSimulatorView {
        CanSimulatorView { queued: self.txbuf@, i: self.i }
    }
}

/// A standard data frame as plain values.
pub open spec fn data_frame(id: u16, data: Seq<u8>) -> FrameView {
    FrameView { id: FrameId::Standard(id), data }
}

/// The frame that the generator emits at a step of its sequence, if any.
pub open spec fn simulated_frame(step: int) -> Option<FrameView> {
    if step == 0 {
        Some(data_frame(0x1DA, seq![0x95, 0x32, 0x18, 0x00, 0x00, 0x01, 0x02, 0x45]))
    } else if step == 1 {
        Some(data_frame(0x55A, seq![0x1A, 0x36, 0x37, 0x00, 0x5F, 0x00, 0x5B, 0x28]))
    } else if step == 2 {
        Some(data_frame(0x300, seq![0x01, 0x0B, 0xA9, 0x0C, 0x0C, 0x00, 0x00, 0x00]))
    } else if step == 3 {
        Some(data_frame(0x301, seq![0x00, 0x00, 0x71, 0x00, 0x00, 0x00, 0x00, 0x00]))
    } else if step == 4 {
        Some(data_frame(0x1D4, seq![0x6E, 0x6E, 0x00, 0x00, 0x07, 0x44, 0x01, 0x28]))
    } else if step == 5 {
        Some(data_frame(0x50B, seq![0x00, 0x00, 0x06, 0xC0, 0x00, 0x00, 0x00]))
    } else if step == 6 {
        Some(data_frame(0x11A, seq![0x4E, 0x40, 0x00, 0xAA, 0xC0, 0x00, 0x00, 0x6B]))
    } else if step == 7 {
        Some(data_frame(0x100, seq![0x07, 0x0B, 0xA5, 0x00, 0x00, 0x95, 0x00, 0x00]))
    } else if step == 8 {
        Some(data_frame(0x101, seq![0x19, 0xE1, 0x9F, 0x07, 0x0B, 0x00, 0x0B, 0x0B]))
    } else if step == 9 {
        Some(data_frame(0x102, seq![0x0B, 0xCC, 0x02, 0x58, 0x0B, 0xB8, 0xE4, 0x00]))
    } else if step == 10 {
        Some(data_frame(0x104, seq![0x10, 0x04, 0x00, 0x00, 0x00, 0x00, 0x00, 0x00]))
    } else if step == 16 {
        Some(data_frame(0x506, seq![0x01, 0x00, 0x00, 0x00, 0x00, 0x19, 0x00, 0x00]))
    } else if step == 17 {
        Some(data_frame(0x398, seq![0x01, 0x1A, 0x11, 0x5A, 0x5B, 0x28, 0x00, 0x00]))
    } else if step == 18 {
        Some(data_frame(0x188, seq![0x03, 0x50, 0x32, 0x4D, 0x00, 0x00, 0x00, 0x00]))
    } else if step == 19 {
        Some(data_frame(0x285, seq![0x00, 0x00, 0x14, 0x21, 0x90, 0xFE, 0x0C, 0x10]))
    } else if step == 20 {
        Some(data_frame(0x377, seq![0x05, 0x9C, 0x01, 0x12, 0x45, 0x4B, 0x40, 0x22]))
    } else if step == 21 {
        Some(data_frame(0x389, seq![0x97, 0x00, 0x01, 0x3F, 0x40, 0xD0, 0x00, 0x00]))
    } else if step == 22 {
        Some(data_frame(0x38A, seq![0x44, 0x3F, 0x81, 0x1B, 0x04, 0x00, 0x00, 0x00]))
    } else {
        None
    }
}

/// The frame that the generator emits at a step of its sequence, if any.
pub fn frame_for_step(step: u64) -> (frame: Option<Frame>)
    ensures
        frame is Some <==> simulated_frame(step as int) is Some,
        frame matches Some(f) ==> Some(f@) == simulated_frame(step as int) && f.wf(),
{
    if step == 0 {
        let bytes: [u8; 8] = [0x95, 0x32, 0x18, 0x00, 0x00, 0x01, 0x02, 0x45];
        assert(bytes@ =~= seq![0x95, 0x32, 0x18, 0x00, 0x00, 0x01, 0x02, 0x45]);
        Frame::new_data(0x1DA, bytes.as_slice())
    } else if step == 1 {
        let bytes: [u8; 8] = [0x1A, 0x36, 0x37, 0x00, 0x5F, 0x00, 0x5B, 0x28];
        assert(bytes@ =~= seq![0x1A, 0x36, 0x37, 0x00, 0x5F, 0x00, 0x5B, 0x28]);
        Frame::new_data(0x55A, bytes.as_slice())
    } else if step == 2 {
        let bytes: [u8; 8] = [0x01, 0x0B, 0xA9, 0x0C, 0x0C, 0x00, 0x00, 0x00];
        assert(bytes@ =~= seq![0x01, 0x0B, 0xA9, 0x0C, 0x0C, 0x00, 0x00, 0x00]);
        Frame::new_data(0x300, bytes.as_slice())
    } else if step == 3 {
        let bytes: [u8; 8] = [0x00, 0x00, 0x71, 0x00, 0x00, 0x00, 0x00, 0x00];
        assert(bytes@ =~= seq![0x00, 0x00, 0x71, 0x00, 0x00, 0x00, 0x00, 0x00]);
        Frame::new_data(0x301, bytes.as_slice())
    } else if step == 4 {
        let bytes: [u8; 8] = [0x6E, 0x6E, 0x00, 0x00, 0x07, 0x44, 0x01, 0x28];
        assert(bytes@ =~= seq![0x6E, 0x6E, 0x00, 0x00, 0x07, 0x44, 0x01, 0x28]);
        Frame::new_data(0x1D4, bytes.as_slice())
    } else if step == 5 {
        let bytes: [u8; 7] = [0x00, 0x00, 0x06, 0xC0, 0x00, 0x00, 0x00];
        assert(bytes@ =~= seq![0x00, 0x00, 0x06, 0xC0, 0x00, 0x00, 0x00]);
        Frame::new_data(0x50B, bytes.as_slice())
    } else if step == 6 {
        let bytes: [u8; 8] = [0x4E, 0x40, 0x00, 0xAA, 0xC0, 0x00, 0x00, 0x6B];
        assert(bytes@ =~= seq![0x4E, 0x40, 0x00, 0xAA, 0xC0, 0x00, 0x00, 0x6B]);
        Frame::new_data(0x11A, bytes.as_slice())
    } else if step == 7 {
        let bytes: [u8; 8] = [0x07, 0x0B, 0xA5, 0x00, 0x00, 0x95, 0x00, 0x00];
        assert(bytes@ =~= seq![0x07, 0x0B, 0xA5, 0x00, 0x00, 0x95, 0x00, 0x00]);
        Frame::new_data(0x100, bytes.as_slice())
    } else if step == 8 {
        let bytes: [u8; 8] = [0x19, 0xE1, 0x9F, 0x07, 0x0B, 0x00, 0x0B, 0x0B];
        assert(bytes@ =~= seq![0x19, 0xE1, 0x9F, 0x07, 0x0B, 0x00, 0x0B, 0x0B]);
        Frame::new_data(0x101, bytes.as_slice())
    } else if step == 9 {
        let bytes: [u8; 8] = [0x0B, 0xCC, 0x02, 0x58, 0x0B, 0xB8, 0xE4, 0x00];
        assert(bytes@ =~= seq![0x0B, 0xCC, 0x02, 0x58, 0x0B, 0xB8, 0xE4, 0x00]);
        Frame::new_data(0x102, bytes.as_slice())
    } else if step == 10 {
        let bytes: [u8; 8] = [0x10, 0x04, 0x00, 0x00, 0x00, 0x00, 0x00, 0x00];
        assert(bytes@ =~= seq![0x10, 0x04, 0x00, 0x00, 0x00, 0x00, 0x00, 0x00]);
        Frame::new_data(0x104, bytes.as_slice())
    } else if step == 16 {
        let bytes: [u8; 8] = [0x01, 0x00, 0x00, 0x00, 0x00, 0x19, 0x00, 0x00];
        assert(bytes@ =~= seq![0x01, 0x00, 0x00, 0x00, 0x00, 0x19, 0x00, 0x00]);
        Frame::new_data(0x506, bytes.as_slice())
    } else if step == 17 {
        let bytes: [u8; 8] = [0x01, 0x1A, 0x11, 0x5A, 0x5B, 0x28, 0x00, 0x00];
        assert(bytes@ =~= seq![0x01, 0x1A, 0x11, 0x5A, 0x5B, 0x28, 0x00, 0x00]);
        Frame::new_data(0x398, bytes.as_slice())
    } else if step == 18 {
        let bytes: [u8; 8] = [0x03, 0x50, 0x32, 0x4D, 0x00, 0x00, 0x00, 0x00];
        assert(bytes@ =~= seq![0x03, 0x50, 0x32, 0x4D, 0x00, 0x00, 0x00, 0x00]);
        Frame::new_data(0x188, bytes.as_slice())
    } else if step == 19 {
        let bytes: [u8; 8] = [0x00, 0x00, 0x14, 0x21, 0x90, 0xFE, 0x0C, 0x10];
        assert(bytes@ =~= seq![0x00, 0x00, 0x14, 0x21, 0x90, 0xFE, 0x0C, 0x10]);
        Frame::new_data(0x285, bytes.as_slice())
    } else if step == 20 {
        let bytes: [u8; 8] = [0x05, 0x9C, 0x01, 0x12, 0x45, 0x4B, 0x40, 0x22];
        assert(bytes@ =~= seq![0x05, 0x9C, 0x01, 0x12, 0x45, 0x4B, 0x40, 0x22]);
        Frame::new_data(0x377, bytes.as_slice())
    } else if step == 21 {
        let bytes: [u8; 8] = [0x97, 0x00, 0x01, 0x3F, 0x40, 0xD0, 0x00, 0x00];
        assert(bytes@ =~= seq![0x97, 0x00, 0x01, 0x3F, 0x40, 0xD0, 0x00, 0x00]);
        Frame::new_data(0x389, bytes.as_slice())
    } else if step == 22 {
        let bytes: [u8; 8] = [0x44, 0x3F, 0x81, 0x1B, 0x04, 0x00, 0x00, 0x00];
        assert(bytes@ =~= seq![0x44, 0x3F, 0x81, 0x1B, 0x04, 0x00, 0x00, 0x00]);
        Frame::new_data(0x38A, bytes.as_slice())
    } else {
        None
    }
}

impl CanSimulator {
    /// A generator at the start of its sequence, with an empty queue.
    pub fn new() -> (simulator: CanSimulator)
        ensures
            simulator@ == (CanSimulatorView { queued: Seq::empty(), i: 0 }),
    {
        CanSimulator { txbuf: FrameQueue::new(), i: 0 }
    }

    /// Queues the frame of the current step, if the step has one, and moves
    /// on to the next step. The counter of updates starts over after its
    /// largest value.
    pub fn update(&mut self, millis: u64)
        ensures
            final(self)@.queued == match simulated_frame((old(self).i % SEQUENCE_LENGTH) as int) {
                Some(frame) => queue_after_push(old(self)@.queued, frame),
                None => old(self)@.queued,
            },
            final(self)@.i == if old(self).i == u64::MAX {
                0
            } else {
                (old(self).i + 1) as u64
            },
    {
        match frame_for_step(self.i % SEQUENCE_LENGTH) {
            Some(frame) => {
                self.txbuf.push(frame);
            },
            None => {},
        }
        self.i = if self.i == u64::MAX {
            0
        } else {
            self.i + 1
        };
    }

    /// Takes the oldest frame out of the queue.
    pub fn dequeue(&mut self) -> (frame: Option<Frame>)
        ensures
            old(self)@.queued.len() == 0 ==> frame is None && final(self)@ == old(self)@,
            old(self)@.queued.len() > 0 ==> (frame matches Some(f) && f@ == old(
                self,
            )@.queued.first()) && final(self)@ == (CanSimulatorView {
                queued: old(self)@.queued.drop_first(),
                i: old(self)@.i,
            }),
    {
        self.txbuf.dequeue()
    }
}

} // verus!
