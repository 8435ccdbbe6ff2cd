use tus_upload::config::TusConfig;
use tus_upload::number::{decimal_text, parse_u64};
use tus_upload::protocol::{creation_headers, offset_headers, patch_headers};
use tus_upload::upload::{Upload, UploadState};
use tus_upload::worker::{backoff_delay, CancelReason, UploadWorker, WorkerAction, WorkerEvent};

const MIB: u64 = 1024 * 1024;

/// A tus server in memory: it keeps the committed offset, and answers
/// chunk requests from a list of statuses (204 once the list runs out).
struct FakeServer {
    offset: u64,
    patch_statuses: Vec<u16>,
    patch_attempts: usize,
    bytes_committed: u64,
    sleeps: Vec<u64>,
    creates: usize,
}

impl FakeServer {
    fn new() -> Self {
        FakeServer { offset: 0, patch_statuses: vec![], patch_attempts: 0, bytes_committed: 0, sleeps: vec![], creates: 0 }
    }

    /// Performs `a` against the server and a file of `file_len` bytes.
    fn answer(&mut self, a: WorkerAction, file_len: u64) -> WorkerEvent {
        match a {
            WorkerAction::Create => {
                self.creates += 1;
                WorkerEvent::Created(201, Some("http://s/files/a".to_string()))
            }
            WorkerAction::QueryOffset => WorkerEvent::OffsetReply(200, Some(self.offset.to_string())),
            WorkerAction::ReadChunk(o, n) => {
                let avail = file_len.saturating_sub(o);
                WorkerEvent::ChunkRead(std::cmp::min(n as u64, avail) as usize)
            }
            WorkerAction::SendChunk(o, n) => {
                self.patch_attempts += 1;
                let st = if self.patch_statuses.is_empty() { 204 } else { self.patch_statuses.remove(0) };
                if (200..300).contains(&st) {
                    assert_eq!(o, self.offset, "chunk sent at an offset the server does not hold");
                    self.offset += n as u64;
                    self.bytes_committed += n as u64;
                }
                WorkerEvent::PatchReply(st)
            }
            WorkerAction::Sleep(ms) => {
                self.sleeps.push(ms);
                WorkerEvent::Slept
            }
            WorkerAction::Finish => panic!("nothing to perform after Finish"),
        }
    }
}

/// Runs the worker against the server until it finishes, or until
/// `stop_after` chunks reached the server, where it reports `stop`.
fn run(w: &mut UploadWorker, srv: &mut FakeServer, file_len: u64, stop: Option<(usize, CancelReason)>) {
    let mut a = w.start().unwrap();
    loop {
        if a == WorkerAction::Finish {
            return;
        }
        let is_patch = matches!(a, WorkerAction::SendChunk(_, _));
        let e = srv.answer(a, file_len);
        if let Some((k, reason)) = stop {
            if is_patch && srv.patch_attempts == k {
                // the signal wins the race with the answer of this chunk
                a = w.handle(WorkerEvent::Cancelled(reason));
                continue;
            }
        }
        a = w.handle(e);
    }
}

fn config(chunk: usize) -> TusConfig {
    TusConfig::new("http://s/").with_chunk_size(chunk)
}

fn record(len: u64, chunk: usize) -> Upload {
    Upload::from_parts("u1".into(), "/data/file.bin".into(), len, chunk, 0).unwrap()
}

#[test]
fn happy_path_ten_chunks() {
    let mut w = UploadWorker::new(config(MIB as usize), record(10 * MIB, MIB as usize));
    let mut srv = FakeServer::new();
    run(&mut w, &mut srv, 10 * MIB, None);
    assert_eq!(srv.creates, 1);
    assert_eq!(srv.patch_attempts, 10);
    assert_eq!(w.upload.state, UploadState::Completed);
    assert_eq!(w.upload.progress.bytes_transferred, 10485760);
    assert_eq!(w.upload.progress.chunks_completed, 10);
    assert_eq!(w.upload.location.as_deref(), Some("http://s/files/a"));
}

#[test]
fn resume_after_crash() {
    let mut w = UploadWorker::new(config(MIB as usize), record(10 * MIB, MIB as usize));
    let mut srv = FakeServer::new();
    // the client dies after three chunks: the record is left Active
    let mut a = w.start().unwrap();
    while srv.patch_attempts < 3 || !matches!(a, WorkerAction::QueryOffset) {
        let e = srv.answer(a, 10 * MIB);
        a = w.handle(e);
    }
    let mut saved = w.upload.clone();
    assert_eq!(saved.state, UploadState::Active);
    // on restart the interrupted record is paused, then started again
    saved.transition_to(UploadState::Paused).unwrap();
    let mut w2 = UploadWorker::new(config(MIB as usize), saved);
    assert_eq!(w2.start().unwrap(), WorkerAction::QueryOffset);
    let e = srv.answer(WorkerAction::QueryOffset, 10 * MIB);
    assert!(matches!(&e, WorkerEvent::OffsetReply(200, Some(t)) if t == "3145728"));
    let mut a = w2.handle(e);
    assert_eq!(a, WorkerAction::ReadChunk(3145728, MIB as usize));
    while a != WorkerAction::Finish {
        let e = srv.answer(a, 10 * MIB);
        a = w2.handle(e);
    }
    assert_eq!(w2.upload.state, UploadState::Completed);
    assert_eq!(srv.patch_attempts, 10);
    assert_eq!(srv.bytes_committed, 10 * MIB);
}

#[test]
fn pause_mid_chunk_then_resume() {
    let mut w = UploadWorker::new(config(MIB as usize), record(20 * MIB, MIB as usize));
    let mut srv = FakeServer::new();
    run(&mut w, &mut srv, 20 * MIB, Some((5, CancelReason::Pause)));
    assert_eq!(w.upload.state, UploadState::Paused);
    assert_eq!(w.upload.location.as_deref(), Some("http://s/files/a"));
    let mut w2 = UploadWorker::new(config(MIB as usize), w.upload.clone());
    run(&mut w2, &mut srv, 20 * MIB, None);
    assert_eq!(w2.upload.state, UploadState::Completed);
    assert_eq!(srv.creates, 1);
    // the chunk in flight at the pause was committed once, never twice
    assert_eq!(srv.bytes_committed, 20 * MIB);
    assert_eq!(w2.upload.progress.bytes_transferred, 20 * MIB);
}

#[test]
fn cancel_mid_transfer() {
    let mut w = UploadWorker::new(config(MIB as usize), record(4 * MIB, MIB as usize));
    let mut srv = FakeServer::new();
    run(&mut w, &mut srv, 4 * MIB, Some((2, CancelReason::Cancel)));
    assert_eq!(w.upload.state, UploadState::Cancelled);
    assert!(w.upload.is_finished());
    assert_eq!(w.handle(WorkerEvent::Slept), WorkerAction::Finish);
}

#[test]
fn retry_then_success() {
    let c = config(MIB as usize).with_retry_settings(3, 100);
    let mut w = UploadWorker::new(c, record(2 * MIB, MIB as usize));
    let mut srv = FakeServer::new();
    srv.patch_statuses = vec![503, 503];
    run(&mut w, &mut srv, 2 * MIB, None);
    assert_eq!(srv.sleeps, vec![100, 200]);
    assert_eq!(srv.patch_attempts, 4);
    assert_eq!(w.upload.state, UploadState::Completed);
    assert!(w.upload.progress.last_error.is_none());
}

#[test]
fn retry_exhaustion_fails() {
    let c = config(MIB as usize).with_retry_settings(2, 100);
    let mut w = UploadWorker::new(c, record(2 * MIB, MIB as usize));
    let mut srv = FakeServer::new();
    srv.patch_statuses = vec![500; 100];
    run(&mut w, &mut srv, 2 * MIB, None);
    assert_eq!(srv.patch_attempts, 3);
    assert_eq!(srv.sleeps, vec![100, 200]);
    assert_eq!(w.upload.state, UploadState::Failed);
    assert_eq!(w.upload.progress.last_error.as_deref(), Some("Unexpected HTTP status: 500"));
}

#[test]
fn creation_failures() {
    let mut w = UploadWorker::new(config(MIB as usize), record(MIB, MIB as usize));
    assert_eq!(w.start().unwrap(), WorkerAction::Create);
    assert_eq!(w.handle(WorkerEvent::Created(500, None)), WorkerAction::Finish);
    assert_eq!(w.upload.state, UploadState::Failed);
    assert_eq!(w.upload.progress.last_error.as_deref(), Some("Unexpected HTTP status: 500"));

    let mut w = UploadWorker::new(config(MIB as usize), record(MIB, MIB as usize));
    w.start().unwrap();
    assert_eq!(w.handle(WorkerEvent::Created(201, None)), WorkerAction::Finish);
    assert_eq!(
        w.upload.progress.last_error.as_deref(),
        Some("Configuration error: No location header in response")
    );

    let mut w = UploadWorker::new(config(MIB as usize), record(MIB, MIB as usize));
    w.start().unwrap();
    assert_eq!(w.handle(WorkerEvent::CreateFailed("refused".into())), WorkerAction::Finish);
    assert_eq!(w.upload.progress.last_error.as_deref(), Some("Network error: refused"));
}

#[test]
fn malformed_offset_is_retried() {
    let mut w = UploadWorker::new(config(MIB as usize).with_retry_settings(1, 50), record(MIB, MIB as usize));
    w.start().unwrap();
    w.handle(WorkerEvent::Created(201, Some("http://s/f".into())));
    assert_eq!(w.handle(WorkerEvent::OffsetReply(200, Some("abc".into()))), WorkerAction::Sleep(50));
    assert_eq!(w.handle(WorkerEvent::Slept), WorkerAction::QueryOffset);
    assert_eq!(w.handle(WorkerEvent::OffsetReply(200, None)), WorkerAction::Finish);
    assert_eq!(w.upload.state, UploadState::Failed);
    assert_eq!(
        w.upload.progress.last_error.as_deref(),
        Some("Configuration error: Invalid offset in response")
    );
}

#[test]
fn read_failure_and_empty_read() {
    let mut w = UploadWorker::new(config(MIB as usize), record(MIB, MIB as usize));
    w.start().unwrap();
    w.handle(WorkerEvent::Created(201, Some("http://s/f".into())));
    assert_eq!(w.handle(WorkerEvent::OffsetReply(204, Some("0".into()))), WorkerAction::ReadChunk(0, MIB as usize));
    assert_eq!(w.handle(WorkerEvent::ReadFailed("gone".into())), WorkerAction::Finish);
    assert_eq!(w.upload.state, UploadState::Failed);
    assert_eq!(w.upload.progress.last_error.as_deref(), Some("IO error: gone"));

    let mut w = UploadWorker::new(config(MIB as usize), record(MIB, MIB as usize));
    w.start().unwrap();
    w.handle(WorkerEvent::Created(201, Some("http://s/f".into())));
    w.handle(WorkerEvent::OffsetReply(200, Some("10".into())));
    assert_eq!(w.handle(WorkerEvent::ChunkRead(0)), WorkerAction::Finish);
    assert_eq!(w.upload.state, UploadState::Completed);
    assert_eq!(w.upload.progress.bytes_transferred, MIB);
}

#[test]
fn last_chunk_is_short_and_unrelated_events_are_ignored() {
    let mut w = UploadWorker::new(config(1000), record(2500, 1000));
    w.start().unwrap();
    assert_eq!(w.handle(WorkerEvent::PatchReply(204)), WorkerAction::Create);
    w.handle(WorkerEvent::Created(201, Some("http://s/f".into())));
    assert_eq!(w.handle(WorkerEvent::OffsetReply(200, Some("2000".into()))), WorkerAction::ReadChunk(2000, 500));
    assert_eq!(w.handle(WorkerEvent::ChunkRead(500)), WorkerAction::SendChunk(2000, 500));
    assert_eq!(w.handle(WorkerEvent::PatchReply(204)), WorkerAction::QueryOffset);
    assert_eq!(w.handle(WorkerEvent::OffsetReply(200, Some("2500".into()))), WorkerAction::Finish);
    assert_eq!(w.upload.state, UploadState::Completed);
}

#[test]
fn start_refused_twice_or_when_finished() {
    let mut w = UploadWorker::new(config(1000), record(10, 1000));
    w.start().unwrap();
    assert!(w.start().is_err());
    let mut done = record(10, 1000);
    done.transition_to(UploadState::Active).unwrap();
    done.transition_to(UploadState::Completed).unwrap();
    let mut w = UploadWorker::new(config(1000), done);
    assert!(w.start().is_err());
}

#[test]
fn backoff_doubles_and_caps() {
    assert_eq!(backoff_delay(100, 1), 100);
    assert_eq!(backoff_delay(100, 2), 200);
    assert_eq!(backoff_delay(100, 3), 400);
    assert_eq!(backoff_delay(1000, 5), 16000);
    assert_eq!(backoff_delay(1000, 6), 30000);
    assert_eq!(backoff_delay(1000, 200), 30000);
    assert_eq!(backoff_delay(40000, 1), 30000);
    assert_eq!(backoff_delay(0, 9), 0);
}

#[test]
fn parse_offsets() {
    assert_eq!(parse_u64("0"), Some(0));
    assert_eq!(parse_u64("3145728"), Some(3145728));
    assert_eq!(parse_u64("18446744073709551615"), Some(u64::MAX));
    assert_eq!(parse_u64("18446744073709551616"), None);
    assert_eq!(parse_u64("99999999999999999999x"), None);
    assert_eq!(parse_u64(""), None);
    assert_eq!(parse_u64("12a"), None);
    assert_eq!(parse_u64("-1"), None);
    assert_eq!(parse_u64("+5"), Some(5));
    assert_eq!(parse_u64("+"), None);
    assert_eq!(parse_u64("++1"), None);
    assert_eq!(parse_u64(" 1"), None);
}

#[test]
fn decimal_texts() {
    assert_eq!(decimal_text(0), "0");
    assert_eq!(decimal_text(10485760), "10485760");
    assert_eq!(decimal_text(u64::MAX), "18446744073709551615");
}

fn text_headers(h: Vec<(String, Vec<u8>)>) -> Vec<(String, String)> {
    h.into_iter().map(|(k, v)| (k, String::from_utf8(v).unwrap())).collect()
}

fn pair(k: &str, v: &str) -> (String, String) {
    (k.to_string(), v.to_string())
}

#[test]
fn request_headers() {
    let c = config(1000).with_header("Authorization".into(), "Bearer t".into());
    let mut u = record(2500, 1000);
    assert_eq!(
        text_headers(creation_headers(&c, &u)),
        vec![pair("Authorization", "Bearer t"), pair("Tus-Resumable", "1.0.0"), pair("Upload-Length", "2500")]
    );
    u.add_metadata("filename".into(), "a.txt".into());
    assert_eq!(
        text_headers(creation_headers(&c, &u))[3],
        pair("Upload-Metadata", "filename YS50eHQ=")
    );
    assert_eq!(
        text_headers(offset_headers(&c)),
        vec![pair("Authorization", "Bearer t"), pair("Tus-Resumable", "1.0.0")]
    );
    assert_eq!(
        text_headers(patch_headers(&c, 3145728)),
        vec![
            pair("Authorization", "Bearer t"),
            pair("Tus-Resumable", "1.0.0"),
            pair("Upload-Offset", "3145728"),
            pair("Content-Type", "application/offset+octet-stream"),
        ]
    );
}
