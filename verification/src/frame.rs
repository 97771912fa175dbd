//! Protocol frames: an identifier and up to eight data bytes.

use vstd::prelude::*;

verus! {

/// Largest number of data bytes in one frame.
pub const MAX_FRAME_BYTES: usize = 8;

/// Largest 11-bit identifier.
pub const MAX_STANDARD_ID: u16 = 0x7FF;

/// Largest 29-bit identifier.
pub const MAX_EXTENDED_ID: u32 = 0x1FFF_FFFF;

/// A frame identifier, 11 or 29 bits wide.
#[derive(Clone, Copy, Debug, PartialEq, Eq, Structural)]
pub enum FrameId {
    Standard(u16),
    Extended(u32),
}

impl FrameId {
    /// The identifier fits the width of its kind.
    pub open spec fn valid(self) -> bool {
        match self {
            FrameId::Standard(raw) => raw <= MAX_STANDARD_ID,
            FrameId::Extended(raw) => raw <= MAX_EXTENDED_ID,
        }
    }

    pub fn is_valid(&self) -> (r: bool)
        ensures
            r == self.valid(),
    {
        match self {
            FrameId::Standard(raw) => *raw <= MAX_STANDARD_ID,
            FrameId::Extended(raw) => *raw <= MAX_EXTENDED_ID,
        }
    }
}

/// One frame as it travels on the bus.
#[derive(Clone, Debug, PartialEq, Eq)]
pub struct Frame {
    pub id: FrameId,
    pub data: Vec<u8>,
}

/// What a frame holds, as plain mathematical values.
pub ghost struct FrameView {
    pub id: FrameId,
    pub data: Seq<u8>,
}

impl View for Frame {
    type V = FrameView;

    open spec fn view(&self) -> FrameView {
        FrameView { id: self.id, data: self.data@ }
    }
}

impl FrameView {
    pub open spec fn wf(self) -> bool {
        self.id.valid() && self.data.len() <= MAX_FRAME_BYTES
    }
}

impl Frame {
    /// The identifier is valid and there are at most eight data bytes.
    pub open spec fn wf(&self) -> bool {
        self@.wf()
    }

    /// Builds a data frame with a standard identifier, or nothing when the
    /// identifier is wider than 11 bits or the payload is longer than a
    /// frame can carry.
    pub fn new_data(frame_id: u16, data: &[u8]) -> (r: Option<Frame>)
        ensures
            r is Some <==> frame_id <= MAX_STANDARD_ID && data@.len() <= MAX_FRAME_BYTES,
            r matches Some(f) ==> f@ == (FrameView { id: FrameId::Standard(frame_id), data: data@ })
                && f.wf(),
    {
        if frame_id > MAX_STANDARD_ID || data.len() > MAX_FRAME_BYTES {
            return None;
        }
        let mut bytes: Vec<u8> = Vec::new();
        let mut i: usize = 0;
        while i < data.len()
            invariant
                i <= data@.len(),
                bytes@ == data@.subrange(0, i as int),
            decreases data@.len() - i,
        {
            bytes.push(data[i]);
            i += 1;
            assert(bytes@ =~= data@.subrange(0, i as int));
        }
        assert(bytes@ =~= data@);
        Some(Frame { id: FrameId::Standard(frame_id), data: bytes })
    }

    /// A copy of this frame.
    pub fn duplicate(&self) -> (copy: Frame)
        ensures
            copy@ == self@,
    {
        let mut bytes: Vec<u8> = Vec::new();
        let mut i: usize = 0;
        while i < self.data.len()
            invariant
                i <= self.data@.len(),
                bytes@ == self.data@.subrange(0, i as int),
            decreases self.data@.len() - i,
        {
            bytes.push(self.data[i]);
            i += 1;
            assert(bytes@ =~= self.data@.subrange(0, i as int));
        }
        assert(bytes@ =~= self.data@);
        Frame { id: self.id, data: bytes }
    }
}

} // verus!
