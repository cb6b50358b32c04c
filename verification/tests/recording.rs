use rdesktop::recording::{RecordingError, RecordingPaths, RecordingStatus, RecordingStore};

fn paths() -> RecordingPaths {
    RecordingPaths {
        output_stem: "/tmp/rec/recording".to_string(),
        partial: "/tmp/rec/recording.partial".to_string(),
        native_partial: "/tmp/rec/recording.partial.mp4".to_string(),
        final_mp4: "/tmp/rec/recording.mp4".to_string(),
        final_webm: "/tmp/rec/recording.webm".to_string(),
    }
}

#[test]
fn recording_start_is_singleton_and_mp4_stop_is_idempotent() {
    let mut store = RecordingStore::new(paths());
    assert!(!store.start_reuses());
    let first = store.begin(1700000000123, "1700000000".to_string());
    assert_eq!(first.status, RecordingStatus::Recording);
    assert_eq!(first.session_id.as_deref(), Some("1700000000123-1"));
    assert!(store.start_reuses());
    let second = store.snapshot();
    assert_eq!(first.session_id, second.session_id);

    let session_id = first.session_id.clone().unwrap();
    store.mark_started(&session_id, "video/mp4").unwrap();
    store.check_chunk(&session_id).unwrap();
    assert_eq!(store.add_bytes(8), 8);
    let stopped = store.request_stop(Some(&session_id)).unwrap();
    assert_eq!(stopped.status, RecordingStatus::StopRequested);
    assert_eq!(store.complete_begin(&session_id, Some("video/mp4")).unwrap().map(|s| s.status), None);
    assert_eq!(store.mime_type_or_empty(), "video/mp4");
    assert_eq!(store.final_path(Some("video/mp4")), "/tmp/rec/recording.mp4");
    let completed = store.complete_finish(Ok(()), "1700000005".to_string());
    assert_eq!(completed.status, RecordingStatus::Completed);
    assert_eq!(completed.path, "/tmp/rec/recording.mp4");
    assert_eq!(completed.bytes, 8);

    let repeated = store.complete_begin(&session_id, Some("video/mp4")).unwrap().unwrap();
    assert_eq!(repeated.status, RecordingStatus::Completed);
    assert_eq!(repeated.path, completed.path);
}

/// What a start request does with the store's lock held: reuse the running
/// session, or begin one.
fn start(store: &mut RecordingStore, now_ms: u64) -> (rdesktop::recording::RecordingSnapshot, bool) {
    if store.start_reuses() {
        (store.snapshot(), true)
    } else {
        (store.begin(now_ms, now_ms.to_string()), false)
    }
}

#[test]
fn concurrent_starts_share_one_session() {
    let mut store = RecordingStore::new(paths());
    // The store's lock orders two concurrent starts; whichever runs second
    // finds the first one's session.
    let first = start(&mut store, 30);
    let second = start(&mut store, 31);
    assert_ne!(first.1, second.1);
    assert_eq!(first.0.session_id, second.0.session_id);
}

#[test]
fn second_session_gets_a_new_id() {
    let mut store = RecordingStore::new(paths());
    let a = store.begin(5, "5".to_string());
    let id = a.session_id.clone().unwrap();
    store.fail(&id, "boom".to_string(), "6".to_string()).unwrap();
    assert!(!store.start_reuses());
    let b = store.begin(5, "7".to_string());
    assert_eq!(a.session_id.as_deref(), Some("5-1"));
    assert_eq!(b.session_id.as_deref(), Some("5-2"));
}

#[test]
fn native_stop_is_idempotent() {
    let mut store = RecordingStore::new_native(paths());
    let s = store.begin(10, "10".to_string());
    assert_eq!(s.mime_type.as_deref(), Some("video/mp4"));
    let id = s.session_id.clone().unwrap();
    assert!(store.stop_begin(Some(&id)).unwrap().is_none());
    let again = store.stop_begin(Some(&id)).unwrap().unwrap();
    assert_eq!(again.status, RecordingStatus::Finalizing);
    let done = store.stop_finish(Ok(4096), "11".to_string());
    assert_eq!(done.status, RecordingStatus::Completed);
    assert_eq!(done.bytes, 4096);
    assert_eq!(done.path, "/tmp/rec/recording.mp4");
    let after = store.stop_begin(None).unwrap().unwrap();
    assert_eq!(after.status, RecordingStatus::Completed);
}

#[test]
fn native_stop_failure_is_reported() {
    let mut store = RecordingStore::new_native(paths());
    store.begin(1, "1".to_string());
    assert!(store.stop_begin(None).unwrap().is_none());
    let failed = store.stop_finish(Err("encoder died".to_string()), "2".to_string());
    assert_eq!(failed.status, RecordingStatus::Failed);
    assert_eq!(failed.error.as_deref(), Some("encoder died"));
    assert_eq!(failed.finished_at.as_deref(), Some("2"));
}

#[test]
fn native_start_failure_marks_failed() {
    let mut store = RecordingStore::new_native(paths());
    store.begin(1, "1".to_string());
    let s = store.start_failed("no desktop".to_string(), "1".to_string());
    assert_eq!(s.status, RecordingStatus::Failed);
    assert!(!store.start_reuses());
}

#[test]
fn browser_stop_twice_is_safe() {
    let mut store = RecordingStore::new(paths());
    let s = store.begin(1, "1".to_string());
    let id = s.session_id.unwrap();
    let a = store.stop_begin(Some(&id)).unwrap().unwrap();
    let b = store.stop_begin(Some(&id)).unwrap().unwrap();
    assert_eq!(a.status, RecordingStatus::StopRequested);
    assert_eq!(b.status, RecordingStatus::StopRequested);
}

#[test]
fn session_guards_refuse_other_sessions() {
    let mut store = RecordingStore::new(paths());
    store.begin(1, "1".to_string());
    assert_eq!(store.request_stop(Some("nope")).unwrap_err(), RecordingError::SessionMismatch);
    assert_eq!(store.mark_started("nope", "video/webm").unwrap_err(), RecordingError::SessionMismatch);
    assert_eq!(store.check_chunk("nope").unwrap_err(), RecordingError::SessionMismatch);
    assert_eq!(
        store.complete_begin("nope", None).unwrap_err(),
        RecordingError::SessionMismatch
    );
    assert_eq!(
        store.fail("nope", "x".to_string(), "2".to_string()).unwrap_err(),
        RecordingError::SessionMismatch
    );
    assert_eq!(store.snapshot().status, RecordingStatus::Recording);
    assert_eq!(
        RecordingError::SessionMismatch.message(),
        "recording session does not match the active session"
    );
}

#[test]
fn native_store_refuses_browser_messages() {
    let mut store = RecordingStore::new_native(paths());
    let s = store.begin(1, "1".to_string());
    let id = s.session_id.unwrap();
    assert_eq!(store.mark_started(&id, "video/webm").unwrap_err(), RecordingError::NativeRejectsMetadata);
    assert_eq!(store.check_chunk(&id).unwrap_err(), RecordingError::NativeRejectsChunks);
    assert_eq!(store.complete_begin(&id, None).unwrap_err(), RecordingError::NativeFinalizedByStop);
    assert_eq!(
        RecordingError::NativeFinalizedByStop.message(),
        "native recording is finalized by the server stop operation"
    );
}

#[test]
fn finished_sessions_refuse_media() {
    let mut store = RecordingStore::new(paths());
    let s = store.begin(1, "1".to_string());
    let id = s.session_id.unwrap();
    let (failed, removed) = store.fail(&id, "tab closed".to_string(), "2".to_string()).unwrap();
    assert!(removed);
    assert_eq!(failed.status, RecordingStatus::Failed);
    assert_eq!(store.check_chunk(&id).unwrap_err(), RecordingError::NotAcceptingChunks);
    assert_eq!(store.mark_started(&id, "video/webm").unwrap_err(), RecordingError::NotAcceptingMetadata);
    let (again, removed_again) = store.fail(&id, "later".to_string(), "3".to_string()).unwrap();
    assert!(!removed_again);
    assert_eq!(again.error.as_deref(), Some("tab closed"));
}

#[test]
fn webm_recordings_use_the_webm_file() {
    let mut store = RecordingStore::new(paths());
    let s = store.begin(1, "1".to_string());
    assert_eq!(s.path, "/tmp/rec/recording.webm");
    let id = s.session_id.unwrap();
    store.mark_started(&id, "video/webm;codecs=vp9").unwrap();
    assert_eq!(store.snapshot().path, "/tmp/rec/recording.webm");
    assert_eq!(store.snapshot().download_url, "/__rdesktop__/agent/recording/file");
    assert_eq!(store.final_path(None), "/tmp/rec/recording.webm");
}

#[test]
fn byte_count_saturates() {
    let mut store = RecordingStore::new(paths());
    store.begin(1, "1".to_string());
    assert_eq!(store.add_bytes(u64::MAX - 1), u64::MAX - 1);
    assert_eq!(store.add_bytes(5), u64::MAX);
}

#[test]
fn status_names() {
    assert_eq!(RecordingStatus::StopRequested.as_str(), "stop_requested");
    assert_eq!(RecordingStatus::Idle.as_str(), "idle");
}
