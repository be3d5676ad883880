//! Stream-encoder lifecycle.
//!
//! The encoder appends mixed samples to the open output one block at a
//! time and is finalized exactly once when the session stops; until it is
//! finalized the output is not a valid file. This type tracks that
//! lifecycle — how many samples have been accepted and whether finalize
//! has happened — while the platform layer performs the actual file
//! writes, one for one.

use vstd::prelude::*;

verus! {

/// The fixed sample rate of every session's output.
pub const SAMPLE_RATE: u32 = 48_000;

/// The fixed channel count of every session's output: interleaved stereo.
pub const CHANNEL_COUNT: u16 = 2;

/// The mathematical state of the encoder.
pub struct EncoderView {
    pub samples_written: int,
    pub finalized: bool,
}

/// A machine counter advanced by `n`, saturating at its limit.
pub open spec fn counter_add(c: int, n: int) -> int {
    if c + n > u64::MAX as int {
        u64::MAX as int
    } else {
        c + n
    }
}

/// A streaming encoder for one session's output file.
pub struct StreamEncoder {
    samples_written: u64,
    finalized: bool,
}

impl View for StreamEncoder {
    type V = EncoderView;

    closed spec fn view(&self) -> EncoderView {
        EncoderView { samples_written: self.samples_written as int, finalized: self.finalized }
    }
}

impl StreamEncoder {
    /// A fresh encoder over a newly created, still-empty output.
    pub fn new() -> (e: StreamEncoder)
        ensures
            e@ == (EncoderView { samples_written: 0, finalized: false }),
    {
        StreamEncoder { samples_written: 0, finalized: false }
    }

    /// How many mixed samples the encoder has accepted.
    pub fn samples_written(&self) -> (n: u64)
        ensures
            n == self@.samples_written,
    {
        self.samples_written
    }

    /// Whether finalize has already happened.
    pub fn is_finalized(&self) -> (f: bool)
        ensures
            f == self@.finalized,
    {
        self.finalized
    }

    /// Append one mixed block to the open output. Only the sample count
    /// is tracked here; the count saturates at the counter's limit.
    pub fn write_block(&mut self, samples: &Vec<i32>)
        requires
            !old(self)@.finalized,
        ensures
            !final(self)@.finalized,
            final(self)@.samples_written == counter_add(
                old(self)@.samples_written,
                samples@.len() as int,
            ),
    {
        self.samples_written = self.samples_written.saturating_add(samples.len() as u64);
    }

    /// Write the trailing metadata and close the output. Must happen
    /// exactly once per session; the session controller upholds that.
    pub fn finalize(&mut self)
        requires
            !old(self)@.finalized,
        ensures
            final(self)@ == (EncoderView {
                samples_written: old(self)@.samples_written,
                finalized: true,
            }),
    {
        self.finalized = true;
    }
}

} // verus!
