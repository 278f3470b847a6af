//! Progress state shared between a worker and polling observers.
//!
//! One instance exists per operation kind (one for downloads, one for
//! flashes). A worker updates the counters and flags as it runs; the
//! application wraps an instance in whatever synchronization its
//! pollers need. `reset` prepares the same instance for a new
//! operation without replacing it, so a poller holding a reference
//! keeps observing the same object across operations.

use vstd::prelude::*;

verus! {

/// Progress of a download: byte counters, phase flag, cancellation
/// flag, terminal error and the published output path.
pub struct DownloadState {
    pub total_bytes: u64,
    pub downloaded_bytes: u64,
    pub is_decompressing: bool,
    pub is_cancelled: bool,
    pub error: Option<String>,
    pub output_path: Option<String>,
}

impl DownloadState {
    /// A fresh state: zero counters, clear flags, nothing published.
    pub fn new() -> (s: Self)
        ensures
            s.total_bytes == 0,
            s.downloaded_bytes == 0,
            !s.is_decompressing,
            !s.is_cancelled,
            s.error is None,
            s.output_path is None,
    {
        DownloadState {
            total_bytes: 0,
            downloaded_bytes: 0,
            is_decompressing: false,
            is_cancelled: false,
            error: None,
            output_path: None,
        }
    }

    /// Clear the counters and flags before a new operation. A
    /// previously published error or output path stays until the new
    /// operation overwrites it.
    pub fn reset(&mut self)
        ensures
            final(self).total_bytes == 0,
            final(self).downloaded_bytes == 0,
            !final(self).is_decompressing,
            !final(self).is_cancelled,
            final(self).error == old(self).error,
            final(self).output_path == old(self).output_path,
    {
        self.total_bytes = 0;
        self.downloaded_bytes = 0;
        self.is_decompressing = false;
        self.is_cancelled = false;
    }

    /// Publish a terminal error, replacing any earlier one.
    pub fn set_error(&mut self, message: String)
        ensures
            *final(self) == (DownloadState { error: Some(message), ..*old(self) }),
    {
        self.error = Some(message);
    }

    /// Publish the output path, replacing any earlier one.
    pub fn set_output_path(&mut self, path: String)
        ensures
            *final(self) == (DownloadState { output_path: Some(path), ..*old(self) }),
    {
        self.output_path = Some(path);
    }
}

impl Default for DownloadState {
    fn default() -> (s: Self)
        ensures
            s.total_bytes == 0,
            s.downloaded_bytes == 0,
            !s.is_decompressing,
            !s.is_cancelled,
            s.error is None,
            s.output_path is None,
    {
        Self::new()
    }
}

/// Progress of a flash: byte counters, phase flag, cancellation flag
/// and the terminal error.
pub struct FlashState {
    pub total_bytes: u64,
    pub written_bytes: u64,
    pub is_verifying: bool,
    pub is_cancelled: bool,
    pub error: Option<String>,
}

impl FlashState {
    /// A fresh state: zero counters, clear flags, no error.
    pub fn new() -> (s: Self)
        ensures
            s.total_bytes == 0,
            s.written_bytes == 0,
            !s.is_verifying,
            !s.is_cancelled,
            s.error is None,
    {
        FlashState {
            total_bytes: 0,
            written_bytes: 0,
            is_verifying: false,
            is_cancelled: false,
            error: None,
        }
    }

    /// Clear the counters and flags before a new operation. A
    /// previously published error stays until the new operation
    /// overwrites it.
    pub fn reset(&mut self)
        ensures
            final(self).total_bytes == 0,
            final(self).written_bytes == 0,
            !final(self).is_verifying,
            !final(self).is_cancelled,
            final(self).error == old(self).error,
    {
        self.total_bytes = 0;
        self.written_bytes = 0;
        self.is_verifying = false;
        self.is_cancelled = false;
    }

    /// Publish a terminal error, replacing any earlier one.
    pub fn set_error(&mut self, message: String)
        ensures
            *final(self) == (FlashState { error: Some(message), ..*old(self) }),
    {
        self.error = Some(message);
    }
}

impl Default for FlashState {
    fn default() -> (s: Self)
        ensures
            s.total_bytes == 0,
            s.written_bytes == 0,
            !s.is_verifying,
            !s.is_cancelled,
            s.error is None,
    {
        Self::new()
    }
}

/// After a reset the counters and flags of a download state are
/// cleared, whatever they were, while the published error and output
/// path are kept in place for the next operation to overwrite.
pub proof fn lemma_reset_clears_download(before: DownloadState, after: DownloadState)
    requires
        after.total_bytes == 0,
        after.downloaded_bytes == 0,
        !after.is_decompressing,
        !after.is_cancelled,
        after.error == before.error,
        after.output_path == before.output_path,
    ensures
        after == (DownloadState {
            total_bytes: 0,
            downloaded_bytes: 0,
            is_decompressing: false,
            is_cancelled: false,
            ..before
        }),
{
}

} // verus!
