//! The shape of decoded audio: channel count, sample rate, and the bounds of
//! the chunks that are served.

use vstd::prelude::*;

verus! {

/// Number of samples in one audio buffer.
pub const AUDIO_BUF_LEN: usize = 8192;

/// Channel count and sample rate of a stream.
#[derive(Clone, Copy, Debug, PartialEq, Eq, Structural)]
pub struct AudioSpec {
    pub n_channels: usize,
    pub sample_rate: usize,
}

impl AudioSpec {
    pub fn new(n_channels: usize, sample_rate: usize) -> (r: Self)
        ensures
            r.n_channels == n_channels,
            r.sample_rate == sample_rate,
    {
        AudioSpec { n_channels, sample_rate }
    }
}

/// The last index and the final flag of the chunk that `AudioChunk::slice`
/// cuts out of `n_samples` samples for `start..=end`: the end is clamped to
/// the last sample, and the chunk is final when the clamped end is past the
/// samples, which the clamp rules out.
pub fn chunk_slice_bounds(n_samples: usize, start: usize, end: usize) -> (r: (usize, bool))
    requires
        n_samples >= 1,
        start <= end,
        start < n_samples,
    ensures
        r.0 == if end < n_samples - 1 { end as int } else { n_samples - 1 },
        start <= r.0 < n_samples,
        r.1 == (r.0 >= n_samples),
        !r.1,
{
    let last = if end < n_samples - 1 { end } else { n_samples - 1 };
    (last, last >= n_samples)
}

/// The bounds of the chunk served once decoding is finished: samples `start`
/// up to `end` clamped to the last sample, final when `end` reaches past the
/// samples.
pub fn finished_chunk_bounds(n_samples: usize, start: usize, end: usize) -> (r: (usize, bool))
    requires
        n_samples >= 1,
        start <= end,
        start < n_samples,
    ensures
        r.0 == if end < n_samples - 1 { end as int } else { n_samples - 1 },
        r.1 == (end >= n_samples),
{
    let last = if end < n_samples - 1 { end } else { n_samples - 1 };
    (last, end >= n_samples)
}

} // verus!
