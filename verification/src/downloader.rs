//! The progress-reporting capability a caller supplies to a download.

use vstd::prelude::*;

verus! {

/// A progress sink for one download.
///
/// The driver calls `init` exactly once per download, with the total size the
/// server declared, before any chunk is delivered; it then calls `update`
/// exactly once per received chunk, in arrival order. Neither operation has
/// an error channel: an implementation that can fail internally must swallow
/// or defer the failure.
pub trait Downloader {
    /// Receives the declared total size, once, before the first chunk.
    fn init(&mut self, total_size: u64);

    /// Receives one chunk, valid for the duration of the call.
    fn update(&mut self, chunk: &[u8]);
}

} // verus!
