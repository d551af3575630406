//! Throughput-benchmarking echo server core.
//!
//! A server accepts repeated fixed-size payload transfers, echoes each one
//! back, and reports total bytes moved, elapsed time and bandwidth. This
//! crate holds the verified core: the per-connection echo session state
//! machine, the benchmark recorder used by the request/response variant,
//! and the summary arithmetic and formatting. The I/O that drives them
//! lives outside the library.

use vstd::prelude::*;

pub mod recorder;
pub mod report;
pub mod session;

verus! {

/// Samples per second of the synthetic audio-like payload.
pub const SAMPLE_RATE: usize = 16000;

/// Seconds of payload carried in one chunk.
pub const DURATION_SECS: usize = 5;

/// Channel count of the synthetic payload (mono).
pub const CHANNELS: usize = 1;

/// Bytes per sample of the synthetic payload.
pub const BYTES_PER_SAMPLE: usize = 2;

/// Size in bytes of one chunk: the fixed unit transferred per iteration.
pub const BUFFER_SIZE: usize = SAMPLE_RATE * DURATION_SECS * CHANNELS * BYTES_PER_SAMPLE;

/// Number of receive-then-echo rounds one session performs.
pub const ITERATIONS: usize = 10;

} // verus!
