//! The capture loop's decisions: when to capture, which sequence number a
//! captured image gets, and how the capture's size is recorded.
use vstd::prelude::*;
use crate::record::{Bgr8, Image};

verus! {

/// State of the capture loop: the sequence number the next captured image
/// gets, and the last value read from the shared "still recording" flag.
#[derive(Debug, Clone, Copy, PartialEq, Eq, Structural)]
pub struct Recorder {
    pub count: u64,
    pub recording: bool,
}

/// The state after one pass of the loop that read `flag` and captured an
/// image numbered `s.count`.
pub open spec fn spec_step(s: Recorder, flag: bool) -> Recorder {
    Recorder { count: (s.count + 1) as u64, recording: flag }
}

/// The state after one pass per flag reading in `flags`, in order.
pub open spec fn spec_run(s: Recorder, flags: Seq<bool>) -> Recorder
    decreases flags.len(),
{
    if flags.len() == 0 {
        s
    } else {
        spec_run(spec_step(s, flags[0]), flags.drop_first())
    }
}

impl Recorder {
    /// The loop's state before its first pass: no image captured yet, and
    /// the flag as first read.
    pub fn start(flag: bool) -> (r: Recorder)
        ensures
            r == (Recorder { count: 0, recording: flag }),
    {
        Recorder { count: 0, recording: flag }
    }

    /// Whether the loop makes another pass: it does exactly as long as the
    /// last flag reading said that recording goes on.
    pub fn is_recording(&self) -> (b: bool)
        ensures
            b == self.recording,
    {
        self.recording
    }

    /// One pass of the loop: `flag` is the value just read from the shared
    /// flag, and the image captured in this pass gets the returned sequence
    /// number. The pass captures even when `flag` is false; the loop stops
    /// before the next one.
    pub fn step(&mut self, flag: bool) -> (id: u64)
        requires
            old(self).recording,
            old(self).count < u64::MAX,
        ensures
            id == old(self).count,
            *final(self) == spec_step(*old(self), flag),
    {
        let id: u64 = self.count;
        self.count = self.count + 1;
        self.recording = flag;
        id
    }
}

/// Once the loop started with the flag set, the flag readings `flags` (all
/// set but the last) make it capture exactly `flags.len()` images, numbered
/// from 0 on, and stop: one image is captured after the flag is seen
/// cleared.
pub proof fn lemma_stops_one_frame_after_flag_clears(flags: Seq<bool>)
    requires
        flags.len() > 0,
        flags.len() <= u64::MAX,
        !flags.last(),
        forall|i: int| 0 <= i < flags.len() - 1 ==> flags[i],
    ensures
        spec_run(Recorder { count: 0, recording: true }, flags) == (Recorder {
            count: flags.len() as u64,
            recording: false,
        }),
{
    lemma_run_counts(Recorder { count: 0, recording: true }, flags);
}

/// Each pass adds one to the sequence number and leaves the last reading
/// as the flag.
pub proof fn lemma_run_counts(s: Recorder, flags: Seq<bool>)
    requires
        s.count + flags.len() <= u64::MAX,
    ensures
        spec_run(s, flags).count == s.count + flags.len(),
        flags.len() > 0 ==> spec_run(s, flags).recording == flags.last(),
        flags.len() == 0 ==> spec_run(s, flags).recording == s.recording,
    decreases flags.len(),
{
    if flags.len() > 0 {
        lemma_run_counts(spec_step(s, flags[0]), flags.drop_first());
        if flags.len() > 1 {
            assert(flags.drop_first().last() == flags.last());
        }
    }
}

/// Builds the record of a captured image: its sequence number, its pixels,
/// and its size as the capture reported it, each side cut to 16 bits as the
/// GIF format stores it.
pub fn make_image(id: u64, pixels: Vec<Bgr8>, width: u32, height: u32) -> (img: Image)
    ensures
        img.id == id,
        img.Image@ == pixels@,
        img.width == width as u16,
        img.height == height as u16,
        width <= u16::MAX && height <= u16::MAX && pixels@.len() == width * height ==> img.wf(),
{
    Image { id, Image: pixels, width: width as u16, height: height as u16 }
}

impl Image {
    /// Whether the image holds exactly one pixel per position of its
    /// rectangle, which encoding it into a GIF frame needs.
    pub fn has_all_pixels(&self) -> (b: bool)
        ensures
            b == self.wf(),
    {
        let w: usize = self.width as usize;
        let h: usize = self.height as usize;
        assert(w * h <= 0xffff * 0xffff) by (nonlinear_arith)
            requires
                w <= 0xffff,
                h <= 0xffff,
        ;
        self.Image.len() == w * h
    }
}

} // verus!
