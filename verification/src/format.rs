//! Sample-layout normalization for the desktop-capture adapter.
//!
//! The platform delivers each audio chunk together with a format
//! descriptor. A chunk may be planar stereo (all left samples followed by
//! all right samples), mono, or already interleaved stereo; the adapter
//! normalizes every chunk to interleaved stereo before queueing it. When
//! no descriptor is available the chunk is passed through unchanged.

use vstd::prelude::*;

verus! {

/// What the platform reports about a delivered chunk: the channel count
/// and whether the samples are stored planar (one channel after the other)
/// rather than interleaved.
#[derive(Clone, Copy, Debug, PartialEq, Eq, Structural)]
pub struct FormatDescriptor {
    pub channels: u32,
    pub planar: bool,
}

/// The three layouts a delivered chunk can have.
#[derive(Clone, Copy, Debug, PartialEq, Eq, Structural)]
pub enum BufferLayout {
    /// All left-channel samples, then all right-channel samples.
    PlanarStereo,
    /// One channel; each sample fills both stereo slots.
    Mono,
    /// Alternating left and right samples; passed through unchanged.
    InterleavedStereo,
}

/// The layout selected for a descriptor; an absent descriptor defaults to
/// pass-through.
pub open spec fn layout_spec(desc: Option<FormatDescriptor>) -> BufferLayout {
    match desc {
        None => BufferLayout::InterleavedStereo,
        Some(d) => if d.planar && d.channels == 2 {
            BufferLayout::PlanarStereo
        } else if d.channels == 1 {
            BufferLayout::Mono
        } else {
            BufferLayout::InterleavedStereo
        },
    }
}

/// Select the normalization path for a chunk's format descriptor.
pub fn layout_from_descriptor(desc: Option<FormatDescriptor>) -> (l: BufferLayout)
    ensures
        l == layout_spec(desc),
{
    match desc {
        None => BufferLayout::InterleavedStereo,
        Some(d) => if d.planar && d.channels == 2 {
            BufferLayout::PlanarStereo
        } else if d.channels == 1 {
            BufferLayout::Mono
        } else {
            BufferLayout::InterleavedStereo
        },
    }
}

/// A planar stereo block `[L0..Ln-1, R0..Rn-1]` rearranged to
/// `[L0, R0, L1, R1, ..]`. A trailing sample of an odd-length block
/// belongs to no frame and is discarded.
pub open spec fn interleaved_of_planar(s: Seq<i32>) -> Seq<i32> {
    Seq::new(
        (2 * (s.len() as int / 2)) as nat,
        |i: int|
            if i % 2 == 0 {
                s[i / 2]
            } else {
                s[s.len() as int / 2 + i / 2]
            },
    )
}

/// A mono block with each sample duplicated into both stereo slots.
pub open spec fn stereo_of_mono(s: Seq<i32>) -> Seq<i32> {
    Seq::new(2 * s.len(), |i: int| s[i / 2])
}

/// A chunk normalized to interleaved stereo under the given layout.
pub open spec fn normalize_spec(s: Seq<i32>, layout: BufferLayout) -> Seq<i32> {
    match layout {
        BufferLayout::PlanarStereo => interleaved_of_planar(s),
        BufferLayout::Mono => stereo_of_mono(s),
        BufferLayout::InterleavedStereo => s,
    }
}

/// Normalize one delivered chunk to interleaved stereo.
pub fn normalize_buffer(samples: &Vec<i32>, layout: BufferLayout) -> (out: Vec<i32>)
    ensures
        out@ == normalize_spec(samples@, layout),
{
    match layout {
        BufferLayout::PlanarStereo => {
            let frames = samples.len() / 2;
            let mut out: Vec<i32> = Vec::new();
            let mut i: usize = 0;
            while i < frames
                invariant
                    i <= frames,
                    frames == samples@.len() / 2,
                    samples@.len() <= usize::MAX,
                    out@.len() == 2 * i,
                    forall|k: int|
                        0 <= k < out@.len() ==> #[trigger] out@[k] == if k % 2 == 0 {
                            samples@[k / 2]
                        } else {
                            samples@[frames + k / 2]
                        },
                decreases frames - i,
            {
                assert(frames + i < samples@.len());
                out.push(samples[i]);
                out.push(samples[frames + i]);
                i = i + 1;
            }
            proof {
                assert(out@ =~= interleaved_of_planar(samples@));
            }
            out
        },
        BufferLayout::Mono => {
            let n = samples.len();
            let mut out: Vec<i32> = Vec::new();
            let mut i: usize = 0;
            while i < n
                invariant
                    i <= n,
                    n == samples@.len(),
                    out@.len() == 2 * i,
                    forall|k: int| 0 <= k < out@.len() ==> #[trigger] out@[k] == samples@[k / 2],
                decreases n - i,
            {
                out.push(samples[i]);
                out.push(samples[i]);
                i = i + 1;
            }
            proof {
                assert(out@ =~= stereo_of_mono(samples@));
            }
            out
        },
        BufferLayout::InterleavedStereo => {
            let n = samples.len();
            let mut out: Vec<i32> = Vec::new();
            let mut i: usize = 0;
            while i < n
                invariant
                    i <= n,
                    n == samples@.len(),
                    out@ == samples@.take(i as int),
                decreases n - i,
            {
                out.push(samples[i]);
                proof {
                    assert(samples@.take(i + 1) =~= samples@.take(i as int).push(
                        samples@[i as int],
                    ));
                }
                i = i + 1;
            }
            proof {
                assert(samples@.take(n as int) =~= samples@);
            }
            out
        },
    }
}

} // verus!
