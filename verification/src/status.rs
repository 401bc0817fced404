//! Whether a sync is required: the offline check of the local collection,
//! the comparison with the server's metadata, and the cache that keeps
//! repeated checks off the network.

use vstd::prelude::*;
use crate::error::{AnkiError, SyncErrorKind};

verus! {

/// What kind of sync the collection needs.
#[derive(Debug, Clone, Copy, PartialEq, Eq, Structural)]
pub enum Required {
    NoChanges,
    NormalSync,
    FullSync,
}

impl Default for Required {
    fn default() -> (r: Required)
        ensures
            r == Required::NoChanges,
    {
        Required::NoChanges
    }
}

/// A point in time, in seconds since the Unix epoch.
#[derive(Debug, Clone, Copy, PartialEq, Eq, Structural)]
pub struct TimestampSecs(pub i64);

/// A point in time of the system clock.
#[verifier::external_type_specification]
#[verifier::external_body]
pub struct ExSystemTime(std::time::SystemTime);

/// The error for a clock reading before a reference point.
#[verifier::external_type_specification]
#[verifier::external_body]
pub struct ExSystemTimeError(std::time::SystemTimeError);

/// `SystemTime::now` reads the clock; nothing is claimed of the value.
pub assume_specification[ std::time::SystemTime::now ]() -> std::time::SystemTime;

/// `Duration::as_secs` gives the whole seconds of a duration; the duration
/// is opaque here, so nothing is claimed of the value.
pub assume_specification[ core::time::Duration::as_secs ](d: &core::time::Duration) -> u64;

/// Calls `SystemTime::duration_since` with the Unix epoch. The time is
/// opaque here, so nothing is claimed of the result.
#[verifier::external_body]
fn duration_since_unix_epoch(t: &std::time::SystemTime) -> (r: Result<
    core::time::Duration,
    std::time::SystemTimeError,
>) {
    t.duration_since(std::time::UNIX_EPOCH)
}

/// The whole seconds since the Unix epoch by the system clock, 0 when the
/// clock is set before the epoch.
fn unix_time_secs() -> (r: i64) {
    let now = std::time::SystemTime::now();
    match duration_since_unix_epoch(&now) {
        Ok(d) => d.as_secs() as i64,
        Err(_) => 0,
    }
}

/// The seconds from `earlier` to `now`, or 0 if `now` comes first.
pub open spec fn elapsed_secs_spec(earlier: i64, now: i64) -> int {
    if now - earlier > 0 {
        now - earlier
    } else {
        0
    }
}

impl TimestampSecs {
    /// The current time.
    pub fn now() -> (r: TimestampSecs) {
        TimestampSecs(unix_time_secs())
    }

    /// The seconds from `self` to `now`, or 0 if `now` comes first.
    pub fn elapsed_secs_at(self, now: TimestampSecs) -> (r: u64)
        requires
            i64::MIN <= now.0 - self.0 <= i64::MAX,
        ensures
            r == elapsed_secs_spec(self.0, now.0),
    {
        let d = now.0 - self.0;
        if d > 0 {
            d as u64
        } else {
            0
        }
    }
}

/// The modification times a collection records, in milliseconds.
#[derive(Debug, Clone, Copy, PartialEq, Eq, Structural)]
pub struct CollectionTimestamps {
    pub collection_change: i64,
    pub schema_change: i64,
    pub last_sync: i64,
}

impl CollectionTimestamps {
    pub open spec fn never_synced_spec(self) -> bool {
        self.last_sync == 0
    }

    pub open spec fn schema_changed_since_sync_spec(self) -> bool {
        self.schema_change > self.last_sync
    }

    pub open spec fn collection_changed_since_sync_spec(self) -> bool {
        self.collection_change > self.last_sync
    }

    /// Whether the collection has never been synced.
    pub fn never_synced(&self) -> (r: bool)
        ensures
            r == self.never_synced_spec(),
    {
        self.last_sync == 0
    }

    /// Whether the schema changed after the last sync.
    pub fn schema_changed_since_sync(&self) -> (r: bool)
        ensures
            r == self.schema_changed_since_sync_spec(),
    {
        self.schema_change > self.last_sync
    }

    /// Whether the collection changed after the last sync.
    pub fn collection_changed_since_sync(&self) -> (r: bool)
        ensures
            r == self.collection_changed_since_sync_spec(),
    {
        self.collection_change > self.last_sync
    }
}

/// The sync a collection needs as far as its own timestamps tell. A
/// collection that never synced reports no changes, since only the server
/// can tell its true state; otherwise a schema change needs a full sync,
/// and any other change a normal one.
pub open spec fn offline_status_spec(stamps: CollectionTimestamps) -> Required {
    if stamps.never_synced_spec() {
        Required::NoChanges
    } else if stamps.schema_changed_since_sync_spec() {
        Required::FullSync
    } else if stamps.collection_changed_since_sync_spec() {
        Required::NormalSync
    } else {
        Required::NoChanges
    }
}

/// Checks the local collection only. If it is clean but changes are
/// pending on the server, `NoChanges` is returned.
pub fn sync_status_offline(stamps: &CollectionTimestamps) -> (r: Required)
    ensures
        r == offline_status_spec(*stamps),
{
    if stamps.never_synced() {
        Required::NoChanges
    } else if stamps.schema_changed_since_sync() {
        Required::FullSync
    } else if stamps.collection_changed_since_sync() {
        Required::NormalSync
    } else {
        Required::NoChanges
    }
}

/// The metadata each side of a sync reports about its collection.
pub struct SyncMeta {
    /// Last modification, in milliseconds.
    pub modified: i64,
    /// Last schema change, in milliseconds.
    pub schema: i64,
    pub usn: i32,
    /// The side's clock, in seconds.
    pub current_time: i64,
    pub server_message: String,
    pub should_continue: bool,
    pub host_number: u32,
    pub empty: bool,
    pub media_usn: i32,
}

/// The action a sync needs, as found by comparing both sides.
#[derive(Debug, Clone, Copy, PartialEq, Eq, Structural)]
pub enum SyncActionRequired {
    NoChanges,
    FullSyncRequired { upload_ok: bool, download_ok: bool },
    NormalSyncRequired,
}

/// The result of comparing the local collection with the server's.
pub struct ClientSyncState {
    pub required: SyncActionRequired,
    pub local_is_newer: bool,
    pub usn_at_last_sync: i32,
    pub server_usn: i32,
    pub server_message: String,
    pub host_number: u32,
    pub new_endpoint: Option<String>,
    pub server_media_usn: i32,
}

/// The action needed, given the local and the remote metadata: none when
/// both were modified at the same moment, a full sync when the schemas
/// differ (an upload is allowed unless it would replace content with an
/// empty collection, and likewise a download), a normal sync otherwise.
pub open spec fn action_required_spec(local: SyncMeta, remote: SyncMeta) -> SyncActionRequired {
    if remote.modified == local.modified {
        SyncActionRequired::NoChanges
    } else if remote.schema != local.schema {
        SyncActionRequired::FullSyncRequired {
            upload_ok: !local.empty || remote.empty,
            download_ok: !remote.empty || local.empty,
        }
    } else {
        SyncActionRequired::NormalSyncRequired
    }
}

impl SyncMeta {
    /// Compares the local metadata (`self`) with the server's.
    pub fn compared_to_remote(&self, remote: SyncMeta, new_endpoint: Option<String>) -> (r:
        ClientSyncState)
        ensures
            r.required == action_required_spec(*self, remote),
            r.local_is_newer == (self.modified > remote.modified),
            r.usn_at_last_sync == self.usn,
            r.server_usn == remote.usn,
            r.server_message == remote.server_message,
            r.host_number == remote.host_number,
            r.new_endpoint == new_endpoint,
            r.server_media_usn == remote.media_usn,
    {
        let local = self;
        let required = if remote.modified == local.modified {
            SyncActionRequired::NoChanges
        } else if remote.schema != local.schema {
            let upload_ok = !local.empty || remote.empty;
            let download_ok = !remote.empty || local.empty;
            SyncActionRequired::FullSyncRequired { upload_ok, download_ok }
        } else {
            SyncActionRequired::NormalSyncRequired
        };
        ClientSyncState {
            required,
            local_is_newer: local.modified > remote.modified,
            usn_at_last_sync: local.usn,
            server_usn: remote.usn,
            server_message: remote.server_message,
            host_number: remote.host_number,
            new_endpoint,
            server_media_usn: remote.media_usn,
        }
    }
}

/// The largest clock difference, in seconds, at which a sync may go ahead.
pub open spec fn max_clock_skew() -> int {
    300
}

/// Whether `online_sync_status_check` can compute the clock difference of
/// `local` and `remote` without overflow.
pub open spec fn clock_delta_fits(local: SyncMeta, remote: SyncMeta) -> bool {
    i64::MIN < remote.current_time - local.current_time <= i64::MAX
}

/// Decides a sync-status check from the server's metadata `remote`: a
/// server that says to stop is answered with its message as a
/// `ServerMessage` error; clocks more than 300 seconds apart give a
/// `ClockIncorrect` error; otherwise the comparison of both sides.
/// Should be used when `sync_status_offline` reports `NoChanges`, to find
/// out whether the server has pending changes.
pub fn online_sync_status_check(local: SyncMeta, remote: SyncMeta, new_endpoint: Option<String>) -> (r:
    Result<ClientSyncState, AnkiError>)
    requires
        remote.should_continue ==> clock_delta_fits(local, remote),
    ensures
        !remote.should_continue ==> r == Err::<ClientSyncState, AnkiError>(
            AnkiError::SyncError {
                info: remote.server_message,
                kind: SyncErrorKind::ServerMessage,
            },
        ),
        remote.should_continue && (remote.current_time - local.current_time > max_clock_skew()
            || local.current_time - remote.current_time > max_clock_skew()) ==> (r matches Err(
            e,
        ) && e matches AnkiError::SyncError { info, kind } && kind == SyncErrorKind::ClockIncorrect
            && info@ == Seq::<char>::empty()),
        r is Ok <==> remote.should_continue && -max_clock_skew() <= remote.current_time
            - local.current_time <= max_clock_skew(),
        r matches Ok(state) ==> {
            &&& state.required == action_required_spec(local, remote)
            &&& state.local_is_newer == (local.modified > remote.modified)
            &&& state.usn_at_last_sync == local.usn
            &&& state.server_usn == remote.usn
            &&& state.server_message == remote.server_message
            &&& state.host_number == remote.host_number
            &&& state.new_endpoint == new_endpoint
            &&& state.server_media_usn == remote.media_usn
        },
{
    if !remote.should_continue {
        return Err(AnkiError::sync_error(remote.server_message, SyncErrorKind::ServerMessage));
    }
    let delta = remote.current_time - local.current_time;
    if delta > 300 || delta < -300 {
        return Err(AnkiError::sync_error(String::new(), SyncErrorKind::ClockIncorrect));
    }
    Ok(local.compared_to_remote(remote, new_endpoint))
}

/// The answer to a sync-status check.
pub struct SyncStatusResponse {
    pub required: Required,
    pub new_endpoint: Option<String>,
}

/// The status kind that an action corresponds to.
pub open spec fn required_of_action(r: SyncActionRequired) -> Required {
    match r {
        SyncActionRequired::NoChanges => Required::NoChanges,
        SyncActionRequired::FullSyncRequired { .. } => Required::FullSync,
        SyncActionRequired::NormalSyncRequired => Required::NormalSync,
    }
}

impl From<SyncActionRequired> for Required {
    fn from(r: SyncActionRequired) -> (res: Required) {
        match r {
            SyncActionRequired::NoChanges => Required::NoChanges,
            SyncActionRequired::FullSyncRequired { .. } => Required::FullSync,
            SyncActionRequired::NormalSyncRequired => Required::NormalSync,
        }
    }
}

impl vstd::std_specs::convert::FromSpecImpl<SyncActionRequired> for Required {
    open spec fn obeys_from_spec() -> bool {
        true
    }

    open spec fn from_spec(r: SyncActionRequired) -> Required {
        required_of_action(r)
    }
}

impl From<ClientSyncState> for SyncStatusResponse {
    fn from(r: ClientSyncState) -> (res: SyncStatusResponse) {
        SyncStatusResponse { required: Required::from(r.required), new_endpoint: r.new_endpoint }
    }
}

impl vstd::std_specs::convert::FromSpecImpl<ClientSyncState> for SyncStatusResponse {
    open spec fn obeys_from_spec() -> bool {
        true
    }

    open spec fn from_spec(r: ClientSyncState) -> SyncStatusResponse {
        SyncStatusResponse { required: required_of_action(r.required), new_endpoint: r.new_endpoint }
    }
}

/// The answer for a status known without the server.
pub fn status_response_from_required(required: Required) -> (r: SyncStatusResponse)
    ensures
        r.required == required,
        r.new_endpoint is None,
{
    SyncStatusResponse { required, new_endpoint: None }
}

/// Caches the result of a remote sync-status check, so that repeated
/// checks within a short window don't go to the network. Owned by the
/// caller, who keeps passing it to the status check.
#[derive(Debug)]
pub struct RemoteSyncStatus {
    pub last_check: TimestampSecs,
    pub last_response: Required,
}

impl Default for RemoteSyncStatus {
    fn default() -> (r: RemoteSyncStatus)
        ensures
            r.last_check == TimestampSecs(0),
            r.last_response == Required::NoChanges,
    {
        RemoteSyncStatus { last_check: TimestampSecs(0), last_response: Required::NoChanges }
    }
}

impl RemoteSyncStatus {
    /// Records `required` as the server's answer, checked at `now`.
    pub fn update_at(&mut self, required: Required, now: TimestampSecs)
        ensures
            final(self).last_check == now,
            final(self).last_response == required,
    {
        self.last_check = now;
        self.last_response = required;
    }

    /// Records `required` as the server's answer, checked now: the time
    /// stored is the clock's reading at the call.
    pub fn update(&mut self, required: Required)
        ensures
            final(self).last_response == required,
    {
        let now = TimestampSecs::now();
        self.update_at(required, now);
    }
}

/// How long, in seconds, a cached server answer is used.
pub open spec fn cache_lifetime_secs() -> int {
    300
}

/// The first step of a status check.
pub enum StatusCheckStep {
    /// The answer is known without the server.
    Done(SyncStatusResponse),
    /// The server has to be asked.
    FetchRemote,
}

/// The first step of a status check at time `now`, given the offline
/// status of the collection: local changes answer at once; a cached server
/// answer that is not older than 300 seconds is used; only an older one
/// sends the check to the server.
pub open spec fn begin_spec(offline: Required, last_check: i64, last_response: Required, now: i64) -> Option<Required> {
    if offline != Required::NoChanges {
        Some(offline)
    } else if elapsed_secs_spec(last_check, now) <= cache_lifetime_secs() {
        Some(last_response)
    } else {
        None
    }
}

/// Whether the age of the cache at `now` can be computed without overflow.
pub open spec fn cache_age_fits(cache: RemoteSyncStatus, now: TimestampSecs) -> bool {
    i64::MIN <= now.0 - cache.last_check.0 <= i64::MAX
}

/// The first step of a status check made at time `now` (see `begin_spec`).
pub fn check_sync_status_begin_at(offline: Required, cache: &RemoteSyncStatus, now: TimestampSecs) -> (r:
    StatusCheckStep)
    requires
        cache_age_fits(*cache, now),
    ensures
        match begin_spec(offline, cache.last_check.0, cache.last_response, now.0) {
            Some(req) => r matches StatusCheckStep::Done(resp) && resp.required == req
                && resp.new_endpoint is None,
            None => r is FetchRemote,
        },
{
    if offline != Required::NoChanges {
        return StatusCheckStep::Done(status_response_from_required(offline));
    }
    if cache.last_check.elapsed_secs_at(now) <= 300 {
        return StatusCheckStep::Done(status_response_from_required(cache.last_response));
    }
    StatusCheckStep::FetchRemote
}

/// The first step of a status check made now. Local changes always answer
/// at once; with none, the answer is either the cached one or a request to
/// ask the server, depending on the clock.
pub fn check_sync_status_begin(offline: Required, cache: &RemoteSyncStatus) -> (r: StatusCheckStep)
    ensures
        offline != Required::NoChanges ==> (r matches StatusCheckStep::Done(resp)
            && resp.required == offline && resp.new_endpoint is None),
        offline == Required::NoChanges ==> (r is FetchRemote || (r matches StatusCheckStep::Done(
            resp,
        ) && resp.required == cache.last_response && resp.new_endpoint is None)),
{
    if offline != Required::NoChanges {
        return StatusCheckStep::Done(status_response_from_required(offline));
    }
    let now = TimestampSecs::now();
    if cache_age_fits_exec(cache, now) {
        check_sync_status_begin_at(offline, cache, now)
    } else {
        StatusCheckStep::FetchRemote
    }
}

fn cache_age_fits_exec(cache: &RemoteSyncStatus, now: TimestampSecs) -> (r: bool)
    ensures
        r == cache_age_fits(*cache, now),
{
    now.0.checked_sub(cache.last_check.0).is_some()
}

/// The last step of a status check, once the server's metadata has been
/// compared with the local collection (`state`), for a check that began at
/// `time_at_check_begin`: the cache takes the new answer unless a check
/// that began later has already filled it; the caller gets the answer
/// together with the endpoint the server redirected to, if any.
pub fn check_sync_status_finish(
    cache: &mut RemoteSyncStatus,
    time_at_check_begin: TimestampSecs,
    state: ClientSyncState,
) -> (r: SyncStatusResponse)
    ensures
        r.required == required_of_action(state.required),
        r.new_endpoint == state.new_endpoint,
        old(cache).last_check.0 < time_at_check_begin.0 ==> final(cache).last_check
            == time_at_check_begin && final(cache).last_response == required_of_action(
            state.required,
        ),
        old(cache).last_check.0 >= time_at_check_begin.0 ==> final(cache).last_check == old(
            cache,
        ).last_check && final(cache).last_response == old(cache).last_response,
{
    if cache.last_check.0 < time_at_check_begin.0 {
        cache.last_check = time_at_check_begin;
        cache.last_response = Required::from(state.required);
    }
    SyncStatusResponse::from(state)
}

/// A collection that has never been synced reports no changes, whatever
/// its other timestamps say.
pub proof fn lemma_never_synced_reports_no_changes(stamps: CollectionTimestamps)
    requires
        stamps.last_sync == 0,
    ensures
        offline_status_spec(stamps) == Required::NoChanges,
{
}

/// A schema change since the last sync always calls for a full sync, even
/// when the collection changed too.
pub proof fn lemma_schema_change_needs_full_sync(stamps: CollectionTimestamps)
    requires
        stamps.last_sync != 0,
        stamps.schema_change > stamps.last_sync,
    ensures
        offline_status_spec(stamps) == Required::FullSync,
{
}

/// The offline status of a collection, told from its three timestamps: a
/// collection that never synced reports no changes; one whose schema
/// changed after the last sync needs a full sync; otherwise it needs a
/// normal sync exactly when it was modified after the last sync, and
/// nothing else.
pub proof fn lemma_offline_status_from_timestamps(stamps: CollectionTimestamps)
    ensures
        stamps.last_sync == 0 ==> offline_status_spec(stamps) == Required::NoChanges,
        stamps.last_sync != 0 && stamps.schema_change > stamps.last_sync ==> offline_status_spec(
            stamps,
        ) == Required::FullSync,
        stamps.last_sync != 0 && stamps.schema_change <= stamps.last_sync ==> (offline_status_spec(
            stamps,
        ) == Required::NormalSync <==> stamps.collection_change > stamps.last_sync),
        stamps.last_sync != 0 && stamps.schema_change <= stamps.last_sync
            && stamps.collection_change <= stamps.last_sync ==> offline_status_spec(stamps)
            == Required::NoChanges,
        offline_status_spec(stamps) == Required::FullSync ==> stamps.schema_change
            > stamps.last_sync,
{
}

/// The action found by comparing both sides, told from their metadata:
/// nothing when both were modified at the same moment; otherwise a full
/// sync whenever the schema times differ, in either direction, and a
/// normal sync only when they are equal. A full sync may upload unless the
/// local collection is empty and the remote one is not, and may download
/// unless the remote one is empty and the local one is not.
pub proof fn lemma_action_from_metadata(local: SyncMeta, remote: SyncMeta)
    ensures
        local.modified == remote.modified ==> action_required_spec(local, remote)
            == SyncActionRequired::NoChanges,
        local.modified != remote.modified && local.schema != remote.schema ==> action_required_spec(
            local,
            remote,
        ) == (SyncActionRequired::FullSyncRequired {
            upload_ok: !(local.empty && !remote.empty),
            download_ok: !(remote.empty && !local.empty),
        }),
        local.modified != remote.modified ==> (action_required_spec(local, remote)
            == SyncActionRequired::NormalSyncRequired <==> local.schema == remote.schema),
        action_required_spec(local, remote) == action_required_spec(remote, local) || (
        action_required_spec(local, remote) is FullSyncRequired && local.empty != remote.empty),
{
}

/// Collections modified at the same moment on both sides need no sync.
pub proof fn lemma_same_modification_needs_nothing(local: SyncMeta, remote: SyncMeta)
    requires
        local.modified == remote.modified,
    ensures
        action_required_spec(local, remote) == SyncActionRequired::NoChanges,
        required_of_action(action_required_spec(local, remote)) == Required::NoChanges,
{
}

/// Local changes are reported without consulting the cache or the server.
pub proof fn lemma_local_changes_answer_first(
    offline: Required,
    last_check: i64,
    last_response: Required,
    now: i64,
)
    requires
        offline != Required::NoChanges,
    ensures
        begin_spec(offline, last_check, last_response, now) == Some(offline),
{
}

/// With no local changes, an answer cached at most 300 seconds before
/// `now` (or stamped after it) is given again without asking the server;
/// an older one sends the check to the server.
pub proof fn lemma_cache_window(last_check: i64, last_response: Required, now: i64)
    ensures
        now - last_check <= cache_lifetime_secs() ==> begin_spec(
            Required::NoChanges,
            last_check,
            last_response,
            now,
        ) == Some(last_response),
        now - last_check > cache_lifetime_secs() ==> begin_spec(
            Required::NoChanges,
            last_check,
            last_response,
            now,
        ) is None,
{
}

/// The answer a finished check stores is the one the next check reuses:
/// once a check that began at `began` has recorded the server's answer,
/// a check at `now`, at most 300 seconds later, with no local changes,
/// gives that same answer.
pub proof fn lemma_finished_check_is_reused(
    began: i64,
    state_required: SyncActionRequired,
    now: i64,
)
    requires
        began <= now <= began + cache_lifetime_secs(),
    ensures
        begin_spec(Required::NoChanges, began, required_of_action(state_required), now) == Some(
            required_of_action(state_required),
        ),
{
}

} // verus!
