//! The raster frame and the single-slot store of the latest frame.
//!
//! The store has exactly one writer (the capture loop) and any number of
//! readers (viewer sessions). Readers always receive an independent copy,
//! never the live instance; a frame with no pixel data is the explicit
//! "nothing captured yet" sentinel.

use vstd::prelude::*;

verus! {

/// The mathematical value of a [`Frame`]: its dimensions and pixel bytes.
#[verifier::ext_equal]
pub struct FrameView {
    pub width: nat,
    pub height: nat,
    pub pixels: Seq<u8>,
}

impl FrameView {
    /// The sentinel value: no frame has been captured yet.
    pub open spec fn is_empty(self) -> bool {
        self.pixels.len() == 0
    }
}

/// One decoded raster image from the video source.
pub struct Frame {
    pub width: usize,
    pub height: usize,
    pub pixels: Vec<u8>,
}

impl View for Frame {
    type V = FrameView;

    open spec fn view(&self) -> FrameView {
        FrameView {
            width: self.width as nat,
            height: self.height as nat,
            pixels: self.pixels@,
        }
    }
}

impl Frame {
    /// The empty sentinel frame.
    pub fn empty() -> (f: Frame)
        ensures
            f@.is_empty(),
    {
        Frame { width: 0, height: 0, pixels: Vec::new() }
    }

    /// Whether this frame is the "nothing captured yet" sentinel.
    pub fn is_empty(&self) -> (r: bool)
        ensures
            r == self@.is_empty(),
    {
        self.pixels.len() == 0
    }

    /// An independent copy of this frame.
    pub fn duplicate(&self) -> (f: Frame)
        ensures
            f@ == self@,
    {
        let mut pixels: Vec<u8> = Vec::new();
        let mut i: usize = 0;
        while i < self.pixels.len()
            invariant
                i <= self.pixels.len(),
                pixels@ == self.pixels@.take(i as int),
            decreases self.pixels.len() - i,
        {
            pixels.push(self.pixels[i]);
            i = i + 1;
        }
        proof {
            assert(pixels@ =~= self.pixels@);
        }
        let f = Frame { width: self.width, height: self.height, pixels };
        proof {
            assert(f@ =~= self@);
        }
        f
    }
}

/// The single-slot, latest-wins holder of the most recently captured frame.
pub struct FrameStore {
    latest: Frame,
}

impl View for FrameStore {
    type V = FrameView;

    closed spec fn view(&self) -> FrameView {
        self.latest@
    }
}

impl FrameStore {
    /// A fresh store holding the empty sentinel.
    pub fn new() -> (s: FrameStore)
        ensures
            s@.is_empty(),
    {
        FrameStore { latest: Frame::empty() }
    }

    /// Install a new latest frame, discarding the previous one.
    /// Called only by the capture loop.
    pub fn replace(&mut self, f: Frame)
        ensures
            final(self)@ == f@,
    {
        self.latest = f;
    }

    /// An independent copy of the current latest frame; the sentinel if
    /// nothing has been captured yet. Never exposes the live instance.
    pub fn snapshot(&self) -> (f: Frame)
        ensures
            f@ == self@,
    {
        self.latest.duplicate()
    }
}

} // verus!
