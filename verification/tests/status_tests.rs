use anki::error::{AnkiError, SyncErrorKind};
use anki::progress::{full_sync_progress, IoCounts};
use anki::status::{
    check_sync_status_begin, check_sync_status_begin_at, check_sync_status_finish,
    online_sync_status_check, status_response_from_required, sync_status_offline,
    ClientSyncState, CollectionTimestamps, RemoteSyncStatus, Required, StatusCheckStep,
    SyncActionRequired, SyncMeta, SyncStatusResponse, TimestampSecs,
};

fn stamps(collection_change: i64, schema_change: i64, last_sync: i64) -> CollectionTimestamps {
    CollectionTimestamps { collection_change, schema_change, last_sync }
}

#[test]
fn offline_status_checks_in_order() {
    assert_eq!(sync_status_offline(&stamps(500, 500, 0)), Required::NoChanges);
    assert_eq!(sync_status_offline(&stamps(0, 0, 0)), Required::NoChanges);
    assert_eq!(sync_status_offline(&stamps(500, 300, 100)), Required::FullSync);
    assert_eq!(sync_status_offline(&stamps(50, 300, 100)), Required::FullSync);
    assert_eq!(sync_status_offline(&stamps(500, 50, 100)), Required::NormalSync);
    assert_eq!(sync_status_offline(&stamps(100, 100, 100)), Required::NoChanges);
}

fn meta(modified: i64, schema: i64, current_time: i64, should_continue: bool, empty: bool) -> SyncMeta {
    SyncMeta {
        modified,
        schema,
        usn: 7,
        current_time,
        server_message: "maintenance".to_string(),
        should_continue,
        host_number: 3,
        empty,
        media_usn: 11,
    }
}

#[test]
fn online_check_decisions() {
    let local = meta(10, 5, 1000, true, false);
    match online_sync_status_check(local, meta(20, 5, 1000, false, false), None) {
        Err(AnkiError::SyncError { info, kind }) => {
            assert_eq!(info, "maintenance");
            assert_eq!(kind, SyncErrorKind::ServerMessage);
        }
        _ => panic!("expected the server's message"),
    }
    let local = meta(10, 5, 1000, true, false);
    match online_sync_status_check(local, meta(20, 5, 1301, true, false), None) {
        Err(AnkiError::SyncError { info, kind }) => {
            assert_eq!(info, "");
            assert_eq!(kind, SyncErrorKind::ClockIncorrect);
        }
        _ => panic!("expected a clock error"),
    }
    let local = meta(10, 5, 1000, true, false);
    assert!(online_sync_status_check(local, meta(20, 5, 699, true, false), None).is_err());
    let local = meta(10, 5, 1000, true, false);
    let state = online_sync_status_check(local, meta(10, 6, 1300, true, false), Some("x".into()))
        .ok()
        .unwrap();
    assert_eq!(state.required, SyncActionRequired::NoChanges);
    assert_eq!(state.new_endpoint, Some("x".to_string()));
    assert_eq!(state.server_usn, 7);
    assert_eq!(state.host_number, 3);
    let local = meta(10, 5, 1000, true, true);
    let state = online_sync_status_check(local, meta(20, 6, 700, true, false), None).ok().unwrap();
    assert_eq!(
        state.required,
        SyncActionRequired::FullSyncRequired { upload_ok: false, download_ok: true }
    );
    assert!(!state.local_is_newer);
    let local = meta(30, 5, 1000, true, false);
    let state = online_sync_status_check(local, meta(20, 5, 1000, true, false), None).ok().unwrap();
    assert_eq!(state.required, SyncActionRequired::NormalSyncRequired);
    assert!(state.local_is_newer);
}

fn done(step: StatusCheckStep) -> SyncStatusResponse {
    match step {
        StatusCheckStep::Done(r) => r,
        StatusCheckStep::FetchRemote => panic!("expected an answer"),
    }
}

#[test]
fn status_check_uses_local_changes_then_cache() {
    let cache = RemoteSyncStatus { last_check: TimestampSecs(1000), last_response: Required::FullSync };
    let r = done(check_sync_status_begin_at(Required::NormalSync, &cache, TimestampSecs(5000)));
    assert_eq!(r.required, Required::NormalSync);
    assert_eq!(r.new_endpoint, None);
    let r = done(check_sync_status_begin_at(Required::NoChanges, &cache, TimestampSecs(1299)));
    assert_eq!(r.required, Required::FullSync);
    let r = done(check_sync_status_begin_at(Required::NoChanges, &cache, TimestampSecs(500)));
    assert_eq!(r.required, Required::FullSync);
    let r = done(check_sync_status_begin_at(Required::NoChanges, &cache, TimestampSecs(1300)));
    assert_eq!(r.required, Required::FullSync);
    assert!(matches!(
        check_sync_status_begin_at(Required::NoChanges, &cache, TimestampSecs(1301)),
        StatusCheckStep::FetchRemote
    ));
    let r = done(check_sync_status_begin(Required::FullSync, &RemoteSyncStatus::default()));
    assert_eq!(r.required, Required::FullSync);
    assert!(matches!(
        check_sync_status_begin(Required::NoChanges, &RemoteSyncStatus::default()),
        StatusCheckStep::FetchRemote
    ));
}

fn state(required: SyncActionRequired, new_endpoint: Option<String>) -> ClientSyncState {
    ClientSyncState {
        required,
        local_is_newer: false,
        usn_at_last_sync: 0,
        server_usn: 0,
        server_message: String::new(),
        host_number: 0,
        new_endpoint,
        server_media_usn: 0,
    }
}

#[test]
fn finished_check_fills_the_cache_once() {
    let mut cache = RemoteSyncStatus::default();
    let r = check_sync_status_finish(
        &mut cache,
        TimestampSecs(2000),
        state(SyncActionRequired::NormalSyncRequired, Some("https://s.example/".into())),
    );
    assert_eq!(r.required, Required::NormalSync);
    assert_eq!(r.new_endpoint, Some("https://s.example/".to_string()));
    assert_eq!(cache.last_check, TimestampSecs(2000));
    assert_eq!(cache.last_response, Required::NormalSync);
    // an earlier-started check must not overwrite a newer answer
    let r = check_sync_status_finish(
        &mut cache,
        TimestampSecs(1500),
        state(SyncActionRequired::FullSyncRequired { upload_ok: true, download_ok: true }, None),
    );
    assert_eq!(r.required, Required::FullSync);
    assert_eq!(cache.last_check, TimestampSecs(2000));
    assert_eq!(cache.last_response, Required::NormalSync);
    // the stored answer is reused within 300 seconds
    let again = done(check_sync_status_begin_at(Required::NoChanges, &cache, TimestampSecs(2300)));
    assert_eq!(again.required, Required::NormalSync);
}

#[test]
fn update_records_the_answer() {
    let mut cache = RemoteSyncStatus::default();
    assert_eq!(cache.last_check, TimestampSecs(0));
    cache.update_at(Required::NormalSync, TimestampSecs(77));
    assert_eq!(cache.last_check, TimestampSecs(77));
    assert_eq!(cache.last_response, Required::NormalSync);
    cache.update(Required::FullSync);
    assert_eq!(cache.last_response, Required::FullSync);
    assert!(cache.last_check.0 > 1_600_000_000);
    assert_eq!(status_response_from_required(Required::NoChanges).required, Required::NoChanges);
    assert_eq!(TimestampSecs(10).elapsed_secs_at(TimestampSecs(25)), 15);
    assert_eq!(TimestampSecs(10).elapsed_secs_at(TimestampSecs(5)), 0);
}

#[test]
fn progress_follows_direction() {
    let counts = IoCounts {
        total_bytes_to_send: 100,
        bytes_sent: 40,
        total_bytes_to_receive: 900,
        bytes_received: 300,
    };
    let up = full_sync_progress(true, counts);
    assert_eq!((up.total_bytes, up.transferred_bytes), (100, 40));
    let down = full_sync_progress(false, counts);
    assert_eq!((down.total_bytes, down.transferred_bytes), (900, 300));
}
