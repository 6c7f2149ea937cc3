//! Download progress accounting, and the progress-message policy of the
//! polling loop.
//!
//! The download thread counts every chunk it writes to the staging file and
//! reports after each one; the interactive thread drains whatever reports
//! have piled up since its last poll and acts only on the newest, so the
//! display shows the latest known state and no queue of stale updates
//! builds up.

use vstd::prelude::*;

verus! {

/// Bytes written to the staging file so far, and the total the server
/// announced, if any.
pub struct DownloadProgress {
    pub bytes_done: u64,
    pub bytes_total: Option<u64>,
}

impl DownloadProgress {
    /// Start counting a fresh stream.
    pub fn new(bytes_total: Option<u64>) -> (p: DownloadProgress)
        ensures
            p.bytes_done == 0,
            p.bytes_total == bytes_total,
    {
        DownloadProgress { bytes_done: 0, bytes_total }
    }

    /// One chunk of `n` bytes was read and written to the staging file.
    pub fn record_chunk(&mut self, n: u64)
        requires
            old(self).bytes_done + n <= u64::MAX,
        ensures
            final(self).bytes_done == old(self).bytes_done + n,
            final(self).bytes_total == old(self).bytes_total,
    {
        self.bytes_done = self.bytes_done + n;
    }
}

/// What the download thread sends over its channel.
pub enum DownloadMsg {
    /// Bytes done so far, and the announced total if known.
    Progress(u64, Option<u64>),
    /// The stream completed and the staging file was renamed into place.
    Done,
    /// The download failed; the staging file was removed.
    Error(String),
}

/// Of all the messages a poll drained from the channel, the one to act on:
/// the newest, or nothing when none were pending.
pub fn latest_message(drained: Vec<DownloadMsg>) -> (r: Option<DownloadMsg>)
    ensures
        match r {
            Some(m) => drained@.len() > 0 && m == drained@.last(),
            None => drained@.len() == 0,
        },
{
    let mut drained = drained;
    drained.pop()
}

} // verus!
