//! Fixed sizes and rates of the receiver pipeline.

use vstd::prelude::*;

verus! {

/// Number of SDR sample buffers to allocate.
pub const BUF_COUNT: usize = 16;
/// Size of each SDR sample buffer (bytes).
pub const BUF_BYTES: usize = 32768;
/// Number of samples after transforming byte pairs to complex samples.
pub const BUF_SAMPLES: usize = 16384;

/// Sample rate for the SDR.
pub const SDR_SAMPLE_RATE: u32 = 240000;
/// Downconverted baseband sample rate.
pub const BASEBAND_SAMPLE_RATE: u32 = 48000;

/// Each interleaved (I, Q) byte pair becomes one complex sample.
pub proof fn lemma_buf_samples_halves_bytes()
    ensures
        BUF_SAMPLES == BUF_BYTES / 2,
{
}

} // verus!
