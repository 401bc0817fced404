//! The header that accompanies every sync request.

use vstd::prelude::*;

verus! {

/// The version of the sync protocol a client speaks.
#[derive(Debug, Clone, Copy, PartialEq, Eq, Structural)]
pub struct SyncVersion(pub u8);

/// The header of a sync request: protocol version, host key, client
/// version and session key. Its wire form (JSON with the keys `v`, `k`,
/// `c` and `s`) is written by the application.
pub struct SyncHeader {
    pub sync_version: SyncVersion,
    pub sync_key: String,
    pub client_ver: String,
    pub session_key: String,
}

} // verus!
