//! Pacing of video output.
use vstd::prelude::*;

use crate::frames::{clone_image, images_of, ImageRawFrame};

verus! {

/// Picks stored images in turn.
#[derive(Debug)]
pub struct ImageCycle {
    index: usize,
}

impl View for ImageCycle {
    type V = usize;

    closed spec fn view(&self) -> usize {
        self.index
    }
}

impl ImageCycle {
    pub fn new() -> (r: Self)
        ensures
            r@ == 0,
    {
        ImageCycle { index: 0 }
    }

    /// The image to be shown at the next tick, in round-robin order.
    pub fn next_image(&mut self, images: &Vec<ImageRawFrame>) -> (r: Option<ImageRawFrame>)
        ensures
            images@.len() == 0 ==> r is None && final(self)@ == old(self)@,
            images@.len() > 0 ==> {
                &&& r is Some
                &&& r->0@ == images_of(images@)[old(self)@ as int % images@.len() as int]
                &&& final(self)@ == if old(self)@ == usize::MAX {
                    0
                } else {
                    (old(self)@ + 1) as usize
                }
            },
    {
        if images.len() == 0 {
            return None;
        }
        let image = clone_image(&images[self.index % images.len()]);
        self.index = if self.index == usize::MAX {
            0
        } else {
            self.index + 1
        };
        Some(image)
    }
}

/// The longest duration of a frame: one second, at one frame per second.
pub const LONGEST_FRAME: u64 = 1_000_000_000;

/// Paces live video to a frame rate.
///
/// If the output falls behind, or gets ahead, by more than 5 frame durations the
/// timing starts anew.
#[derive(Debug)]
pub struct LivePacer {
    frame_duration: u64,
    start_time: Option<u64>,
    frame_index: u64,
}

/// The state of a [`LivePacer`].
pub struct PacerModel {
    pub frame_duration: u64,
    pub start_time: Option<u64>,
    pub frame_index: u64,
}

impl PacerModel {
    /// The state when a frame arrives: the first one sets the time.
    pub open spec fn begun(self, now: u64) -> PacerModel {
        if self.start_time is None {
            PacerModel { start_time: Some(now), frame_index: 0, ..self }
        } else {
            self
        }
    }

    /// How long ago the timing started.
    pub open spec fn elapsed(self, now: u64) -> int {
        if now >= self.start_time->0 {
            now - self.start_time->0
        } else {
            0
        }
    }

    /// When the frame should be shown, counted from the start. The index is
    /// taken modulo the range of 32 bits.
    pub open spec fn expected(self) -> int {
        self.frame_duration * (self.frame_index as int % 0x1_0000_0000)
    }

    /// How long the frame would have to wait.
    pub open spec fn delay(self, now: u64) -> int {
        if self.expected() > self.elapsed(now) {
            self.expected() - self.elapsed(now) + self.frame_duration
        } else {
            0
        }
    }

    /// Whether the timing has drifted too far.
    pub open spec fn drifted(self, now: u64) -> bool {
        self.delay(now) > 5 * self.frame_duration || self.elapsed(now) > self.expected() + 5
            * self.frame_duration
    }
}

impl View for LivePacer {
    type V = PacerModel;

    closed spec fn view(&self) -> PacerModel {
        PacerModel {
            frame_duration: self.frame_duration,
            start_time: self.start_time,
            frame_index: self.frame_index,
        }
    }
}

impl LivePacer {
    /// The duration of a frame is at most a second.
    pub open spec fn wf(&self) -> bool {
        self@.frame_duration <= LONGEST_FRAME
    }

    pub fn new(frame_duration: u64) -> (r: Self)
        requires
            frame_duration <= LONGEST_FRAME,
        ensures
            r.wf(),
            r@ == (PacerModel { frame_duration, start_time: None, frame_index: 0 }),
    {
        LivePacer { frame_duration, start_time: None, frame_index: 0 }
    }

    /// A frame arrives: how long to wait before it is written.
    pub fn pace(&mut self, now: u64) -> (r: u64)
        requires
            old(self).wf(),
            old(self)@.frame_index < u64::MAX,
        ensures
            final(self).wf(),
            ({
                let c = old(self)@.begun(now);
                if c.drifted(now) {
                    &&& r == 0
                    &&& final(self)@ == PacerModel { start_time: Some(now), frame_index: 1, ..c }
                } else {
                    &&& r == c.delay(now)
                    &&& final(self)@ == PacerModel { frame_index: (c.frame_index + 1) as u64, ..c }
                }
            }),
    {
        let start: u64 = match self.start_time {
            Some(t) => t,
            None => {
                self.start_time = Some(now);
                self.frame_index = 0;
                now
            },
        };
        let elapsed: u64 = if now >= start {
            now - start
        } else {
            0
        };
        let frame: u64 = self.frame_duration;
        let index: u64 = self.frame_index % 0x1_0000_0000;
        assert(0 <= frame * index <= 1_000_000_000 * 0x1_0000_0000) by (nonlinear_arith)
            requires
                0 <= frame <= 1_000_000_000,
                0 <= index <= 0x1_0000_0000,
        ;
        let expected: u64 = frame * index;
        let delay: u64 = if expected > elapsed {
            expected - elapsed + frame
        } else {
            0
        };
        if delay > 5 * frame || elapsed > expected + 5 * frame {
            self.start_time = Some(now);
            self.frame_index = 1;
            return 0;
        }
        self.frame_index = self.frame_index + 1;
        delay
    }
}

/// A frame never waits longer than 5 frame durations.
pub proof fn lemma_wait_is_bounded(c: PacerModel, now: u64)
    ensures
        !c.drifted(now) ==> c.delay(now) <= 5 * c.frame_duration,
{
}

} // verus!
