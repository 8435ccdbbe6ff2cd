use tus_upload::config::TusConfig;
use tus_upload::error::TusError;
use tus_upload::manager::{CancelOutcome, StartOutcome, UploadManager};
use tus_upload::state::{state_file_path, temp_file_path, UploadManager as UploadStore, UploadStateSnapshot};
use tus_upload::upload::{Upload, UploadState};

fn config(max: usize) -> TusConfig {
    TusConfig::new("http://s/").with_max_concurrent_uploads(max).with_state_dir("/tmp/state".into())
}

fn manager(max: usize) -> UploadManager {
    let c = config(max);
    let store = UploadStore::new(c.clone());
    UploadManager::new(c, store).unwrap()
}

fn record(id: &str) -> Upload {
    Upload::from_parts(id.into(), "/data/file.bin".into(), 1024, 1024, 0).unwrap()
}

#[test]
fn test_upload_lifecycle_management() {
    let mut store = UploadStore::new(config(3));
    let upload = record("a");
    let upload_id = upload.id.clone();

    store.add_upload(upload.clone()).unwrap();

    let retrieved = store.get_upload(&upload_id).unwrap();
    assert_eq!(retrieved.id, upload_id);

    let mut updated = retrieved;
    updated.transition_to(UploadState::Active).unwrap();
    store.update_upload(updated.clone()).unwrap();

    let retrieved = store.get_upload(&upload_id).unwrap();
    assert_eq!(retrieved.state, UploadState::Active);

    store.remove_upload(&upload_id).unwrap();
    assert!(store.get_upload(&upload_id).is_err());
}

#[test]
fn store_rejects_duplicates_and_unknown_ids() {
    let mut store = UploadStore::new(config(3));
    store.add_upload(record("a")).unwrap();
    assert!(matches!(store.add_upload(record("a")), Err(TusError::InvalidState(_))));
    assert!(matches!(store.update_upload(record("b")), Err(TusError::UploadNotFound(_))));
    assert!(matches!(store.remove_upload("b"), Err(TusError::UploadNotFound(_))));
    assert!(matches!(store.get_upload("b"), Err(TusError::UploadNotFound(_))));
    assert_eq!(store.list_uploads().len(), 1);
}

#[test]
fn store_remove_deletes_only_the_match() {
    let mut store = UploadStore::new(config(3));
    for id in ["a", "b", "c"] {
        store.add_upload(record(id)).unwrap();
    }
    store.remove_upload("b").unwrap();
    let ids: Vec<String> = store.list_uploads().into_iter().map(|u| u.id).collect();
    assert_eq!(ids, vec!["a".to_string(), "c".to_string()]);
}

#[test]
fn store_filters() {
    let mut store = UploadStore::new(config(3));
    for id in ["a", "b", "c", "d"] {
        store.add_upload(record(id)).unwrap();
    }
    let mut b = store.get_upload("b").unwrap();
    b.transition_to(UploadState::Active).unwrap();
    store.update_upload(b).unwrap();
    let mut c = store.get_upload("c").unwrap();
    c.transition_to(UploadState::Cancelled).unwrap();
    store.update_upload(c).unwrap();
    assert_eq!(store.active_upload_count(), 1);
    let pending: Vec<String> = store.get_uploads_by_state(UploadState::Pending).into_iter().map(|u| u.id).collect();
    assert_eq!(pending, vec!["a".to_string(), "d".to_string()]);
    assert_eq!(store.get_resumable_uploads().len(), 2);
}

#[test]
fn many_adds_give_distinct_records() {
    let mut m = manager(2);
    let mut ids = Vec::new();
    for i in 0..10 {
        ids.push(m.add_upload(format!("/data/f{}.bin", i), 10).unwrap());
    }
    let listed = m.list_uploads();
    assert_eq!(listed.len(), 10);
    for i in 0..10 {
        for j in 0..i {
            assert_ne!(ids[i], ids[j]);
        }
    }
}

#[test]
fn add_upload_rejects_bad_path() {
    let mut m = manager(2);
    assert!(matches!(m.add_upload("/".into(), 1), Err(TusError::Config(_))));
    assert_eq!(m.list_uploads().len(), 0);
}

#[test]
fn concurrency_cap() {
    let mut m = manager(2);
    let a = m.add_upload("/d/a".into(), 10).unwrap();
    let b = m.add_upload("/d/b".into(), 10).unwrap();
    let c = m.add_upload("/d/c".into(), 10).unwrap();
    assert!(matches!(m.start_upload(&a).unwrap(), StartOutcome::Spawn(_)));
    assert!(matches!(m.start_upload(&b).unwrap(), StartOutcome::Spawn(_)));
    assert!(matches!(m.start_upload(&c).unwrap(), StartOutcome::Queued));
    assert_eq!(m.get_active_count(), 2);

    // cancelling one frees its permit for the third
    assert_eq!(m.cancel_upload(&a).unwrap(), CancelOutcome::Signalled);
    let mut rec = m.get_upload_status(&a).unwrap();
    rec.transition_to(UploadState::Active).unwrap();
    let next = m.finish_upload(&a, rec).unwrap().unwrap();
    assert_eq!(next.id, c);
    assert_eq!(m.get_active_count(), 2);
    assert_eq!(m.get_upload_status(&a).unwrap().state, UploadState::Cancelled);
}

#[test]
fn start_errors() {
    let mut m = manager(1);
    let a = m.add_upload("/d/a".into(), 10).unwrap();
    assert!(matches!(m.start_upload("nope"), Err(TusError::UploadNotFound(_))));
    m.start_upload(&a).unwrap();
    assert!(matches!(m.start_upload(&a), Err(TusError::InvalidState(_))));
}

#[test]
fn pause_requires_running_worker() {
    let mut m = manager(1);
    let a = m.add_upload("/d/a".into(), 10).unwrap();
    let b = m.add_upload("/d/b".into(), 10).unwrap();
    assert!(matches!(m.pause_upload(&a), Err(TusError::UploadNotFound(_))));
    m.start_upload(&a).unwrap();
    m.start_upload(&b).unwrap();
    m.pause_upload(&a).unwrap();
    assert!(m.active[0].cancel_reason.is_some());
    // a waiting upload has no worker to pause
    assert!(matches!(m.pause_upload(&b), Err(TusError::UploadNotFound(ref x)) if *x == b));
    assert_eq!(m.waiting, vec![b.clone()]);
    let mut rec = m.get_upload_status(&a).unwrap();
    rec.transition_to(UploadState::Active).unwrap();
    rec.transition_to(UploadState::Paused).unwrap();
    let next = m.finish_upload(&a, rec).unwrap().unwrap();
    assert_eq!(next.id, b);
    assert_eq!(m.get_active_count(), 1);
    assert_eq!(m.get_upload_status(&a).unwrap().state, UploadState::Paused);
}

#[test]
fn cancel_without_worker() {
    let mut m = manager(1);
    let a = m.add_upload("/d/a".into(), 10).unwrap();
    assert_eq!(m.cancel_upload(&a).unwrap(), CancelOutcome::Cancelled);
    assert_eq!(m.get_upload_status(&a).unwrap().state, UploadState::Cancelled);
    assert!(matches!(m.cancel_upload(&a), Err(TusError::InvalidState(_))));
    assert!(matches!(m.cancel_upload("zz"), Err(TusError::UploadNotFound(_))));
}

#[test]
fn restart_pauses_interrupted_records() {
    let c = config(2);
    let mut store = UploadStore::new(c.clone());
    let mut r = record("a");
    r.transition_to(UploadState::Active).unwrap();
    store.add_upload(r).unwrap();
    store.add_upload(record("b")).unwrap();
    let snapshot = store.state;
    let store = UploadStore::restore(snapshot, "/tmp/state").unwrap();
    let mut m = UploadManager::new(c, store).unwrap();
    assert_eq!(m.get_upload_status("a").unwrap().state, UploadState::Paused);
    assert_eq!(m.get_upload_status("b").unwrap().state, UploadState::Pending);
    assert!(matches!(m.start_upload("a").unwrap(), StartOutcome::Spawn(_)));
}

#[test]
fn restore_rejects_duplicate_ids() {
    let snapshot = UploadStateSnapshot {
        version: 1,
        uploads: vec![record("a"), record("a")],
        config: config(1),
    };
    assert!(matches!(UploadStore::restore(snapshot, "x"), Err(TusError::SerdeError(_))));
}

#[test]
fn manager_refuses_invalid_config() {
    let c = TusConfig::new("").with_state_dir("/tmp".into());
    let store = UploadStore::new(c.clone());
    assert!(matches!(UploadManager::new(c, store), Err(TusError::Config(_))));
}

#[test]
fn shutdown_asks_every_worker_to_stop() {
    let mut m = manager(2);
    let a = m.add_upload("/d/a".into(), 10).unwrap();
    let b = m.add_upload("/d/b".into(), 10).unwrap();
    let c = m.add_upload("/d/c".into(), 10).unwrap();
    m.start_upload(&a).unwrap();
    m.start_upload(&b).unwrap();
    m.start_upload(&c).unwrap();
    let ids = m.shutdown();
    assert_eq!(ids, vec![a, b]);
    assert!(m.waiting.is_empty());
    assert!(m.active.iter().all(|h| h.cancel_reason.is_some()));
}

#[test]
fn snapshot_paths() {
    assert_eq!(state_file_path("/tmp/s"), "/tmp/s/upload-state.json");
    assert_eq!(state_file_path("/tmp/s/"), "/tmp/s/upload-state.json");
    assert_eq!(temp_file_path("/tmp/s"), "/tmp/s/upload-state.tmp");
    assert_eq!(UploadStore::new(config(1)).state_file, "/tmp/state/upload-state.json");
}

#[test]
fn add_with_id_outcomes() {
    let mut m = manager(2);
    assert_eq!(m.add_upload_with_id("id-1".into(), "/d/a.bin".into(), 7).unwrap(), "id-1");
    assert!(matches!(m.add_upload_with_id("id-1".into(), "/d/b.bin".into(), 7), Err(TusError::InvalidState(_))));
    match m.add_upload_with_id("id-2".into(), "/".into(), 7) {
        Err(TusError::Config(msg)) => assert_eq!(msg, "Invalid filename"),
        other => panic!("{:?}", other),
    }
    assert_eq!(m.list_uploads().len(), 1);
    assert_eq!(m.get_upload_status("id-1").unwrap().progress.total_bytes, 7);
}

#[test]
fn not_found_errors_carry_the_id() {
    let mut store = UploadStore::new(config(3));
    assert!(matches!(store.get_upload("q"), Err(TusError::UploadNotFound(ref x)) if x == "q"));
    assert!(matches!(store.remove_upload("q"), Err(TusError::UploadNotFound(ref x)) if x == "q"));
    assert!(matches!(store.update_upload(record("q")), Err(TusError::UploadNotFound(ref x)) if x == "q"));
}

#[test]
fn cancel_terminal_record_is_invalid_state() {
    let mut m = manager(1);
    let a = m.add_upload("/d/a".into(), 10).unwrap();
    m.cancel_upload(&a).unwrap();
    assert!(matches!(m.cancel_upload(&a), Err(TusError::InvalidState(_))));
    assert!(matches!(m.start_upload(&a), Err(TusError::InvalidState(_))));
}

#[test]
fn manager_keeps_config_in_force() {
    let old = config(1).with_chunk_size(1024 * 1024);
    let store = UploadStore::new(old);
    let m = UploadManager::new(config(2), store).unwrap();
    assert_eq!(m.store.state.config.max_concurrent_uploads, 2);
    assert_eq!(m.store.temp_file, "/tmp/state/upload-state.tmp");
}
