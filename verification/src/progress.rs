//! Progress of a full upload or download.

use vstd::prelude::*;

verus! {

/// How far a full sync's transfer has come, in bytes.
#[derive(Debug, Clone, Copy, PartialEq, Eq, Structural)]
pub struct FullSyncProgress {
    pub transferred_bytes: usize,
    pub total_bytes: usize,
}

/// The byte counts an I/O monitor keeps for one request.
#[derive(Debug, Clone, Copy, PartialEq, Eq, Structural)]
pub struct IoCounts {
    pub total_bytes_to_send: u64,
    pub bytes_sent: u64,
    pub total_bytes_to_receive: u64,
    pub bytes_received: u64,
}

/// The progress to report for a transfer: the sending counts for an
/// upload (`sending`), the receiving counts for a download, each as a
/// `usize` (keeping the low bits where it is narrower than 64 bits).
pub fn full_sync_progress(sending: bool, counts: IoCounts) -> (p: FullSyncProgress)
    ensures
        sending ==> p.total_bytes == counts.total_bytes_to_send as usize && p.transferred_bytes
            == counts.bytes_sent as usize,
        !sending ==> p.total_bytes == counts.total_bytes_to_receive as usize
            && p.transferred_bytes == counts.bytes_received as usize,
{
    let total_bytes = if sending {
        counts.total_bytes_to_send
    } else {
        counts.total_bytes_to_receive
    };
    let transferred_bytes = if sending {
        counts.bytes_sent
    } else {
        counts.bytes_received
    };
    FullSyncProgress {
        total_bytes: total_bytes as usize,
        transferred_bytes: transferred_bytes as usize,
    }
}

} // verus!
