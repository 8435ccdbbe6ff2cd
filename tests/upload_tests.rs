use tus_upload::encoding::base64_encode;
use tus_upload::error::TusError;
use tus_upload::upload::{file_name, Upload, UploadProgress, UploadState};

const ALL: [UploadState; 6] = [
    UploadState::Pending,
    UploadState::Active,
    UploadState::Paused,
    UploadState::Cancelled,
    UploadState::Completed,
    UploadState::Failed,
];

#[test]
fn upload_test_state_transitions() {
    let transitions = [
        (UploadState::Pending, UploadState::Active, true),
        (UploadState::Active, UploadState::Paused, true),
        (UploadState::Paused, UploadState::Active, true),
        (UploadState::Active, UploadState::Completed, true),
        (UploadState::Completed, UploadState::Active, false),
        (UploadState::Cancelled, UploadState::Active, false),
    ];

    for (from, to, expected) in transitions {
        assert_eq!(
            from.can_transition_to(to),
            expected,
            "Unexpected result for transition {:?} -> {:?}",
            from,
            to
        );
    }
}

#[test]
fn transition_table_all_pairs() {
    let allowed = [
        (UploadState::Pending, UploadState::Active),
        (UploadState::Pending, UploadState::Cancelled),
        (UploadState::Active, UploadState::Paused),
        (UploadState::Active, UploadState::Cancelled),
        (UploadState::Active, UploadState::Completed),
        (UploadState::Active, UploadState::Failed),
        (UploadState::Paused, UploadState::Active),
        (UploadState::Paused, UploadState::Cancelled),
    ];
    let mut count = 0;
    for from in ALL {
        for to in ALL {
            count += 1;
            assert_eq!(from.can_transition_to(to), allowed.contains(&(from, to)), "{:?} -> {:?}", from, to);
        }
    }
    assert_eq!(count, 36);
}

#[test]
fn terminal_states_refuse_every_transition() {
    let mut u = Upload::from_parts("x".into(), "/d/f.bin".into(), 10, 4, 0).unwrap();
    u.transition_to(UploadState::Active).unwrap();
    u.transition_to(UploadState::Failed).unwrap();
    for to in ALL {
        let before = u.state;
        assert!(matches!(u.transition_to(to), Err(TusError::InvalidState(_))));
        assert_eq!(u.state, before);
    }
}

#[test]
fn test_progress_update() {
    let total_bytes = 1024 * 1024 * 10; // 10MB
    let mut progress = UploadProgress::new(total_bytes, 1024 * 1024);
    assert_eq!(progress.bytes_transferred, 0);

    progress.update(1024 * 1024 * 2, true);
    assert_eq!(progress.bytes_transferred, 1024 * 1024 * 2);

    progress.update(1024 * 1024 * 2, true);
    assert_eq!(progress.bytes_transferred, 1024 * 1024 * 4);

    progress.update(1024 * 1024 * 4, true);
    assert_eq!(progress.bytes_transferred, 1024 * 1024 * 8);
}

#[test]
fn test_progress_tracking() {
    let mut progress = UploadProgress::new(1000, 100);

    // Initial state
    assert_eq!(progress.bytes_transferred, 0);
    assert_eq!(progress.total_bytes, 1000);
    assert_eq!(progress.chunks_completed, 0);
    assert_eq!(progress.total_chunks, 10);

    // Update progress
    progress.update(100, true);
    assert_eq!(progress.bytes_transferred, 100);
    assert_eq!(progress.chunks_completed, 1);
    let pct = progress.bytes_transferred as f64 / progress.total_bytes as f64 * 100.0;
    assert!((pct - 10.0).abs() < f64::EPSILON);
}

#[test]
fn test_speed_calculation() {
    let mut progress = UploadProgress::new_at(10000, 1000, 5000);

    progress.update_at(1000, true, 5100);
    progress.update_at(1000, true, 5200);

    assert!(progress.speed > 0);
}

#[test]
fn speed_moving_average() {
    let mut p = UploadProgress::new_at(100000, 1000, 0);
    // 1000 bytes in 100 ms: 10000 B/s
    p.update_at(1000, true, 100);
    assert_eq!(p.speed, 10000);
    // 2000 bytes in 100 ms: 20000 B/s, averaged 0.7 * 10000 + 0.3 * 20000
    p.update_at(2000, true, 200);
    assert_eq!(p.speed, 13000);
    // no time passed: speed kept
    p.update_at(500, false, 200);
    assert_eq!(p.speed, 13000);
    assert_eq!(p.bytes_transferred, 3500);
    assert_eq!(p.chunks_completed, 2);
    assert_eq!(p.last_updated, 200);
}

#[test]
fn progress_never_passes_total() {
    let mut p = UploadProgress::new_at(100, 30, 0);
    assert_eq!(p.total_chunks, 4);
    p.update_at(90, true, 1);
    p.update_at(90, true, 2);
    assert_eq!(p.bytes_transferred, 100);
}

#[test]
fn total_chunks_is_ceiling() {
    assert_eq!(UploadProgress::new_at(0, 5, 0).total_chunks, 0);
    assert_eq!(UploadProgress::new_at(10, 5, 0).total_chunks, 2);
    assert_eq!(UploadProgress::new_at(11, 5, 0).total_chunks, 3);
    assert_eq!(UploadProgress::new_at(u64::MAX, 1, 0).total_chunks, u32::MAX);
}

#[test]
fn test_upload_lifecycle() {
    let mut upload = Upload::new("/tmp/some/file.bin".to_string(), 1024, 1024).unwrap();

    // Test initial state
    assert_eq!(upload.state, UploadState::Pending);
    assert!(upload.can_start());
    assert_eq!(upload.id.len(), 36);
    assert_eq!(upload.filename, "file.bin");

    // Test state transitions
    upload.transition_to(UploadState::Active).unwrap();
    assert!(upload.is_active());

    upload.transition_to(UploadState::Paused).unwrap();
    assert!(!upload.is_active());
    assert!(upload.can_start());

    upload.transition_to(UploadState::Active).unwrap();
    upload.transition_to(UploadState::Completed).unwrap();
    assert!(upload.is_finished());
    assert_eq!(upload.progress.bytes_transferred, upload.progress.total_bytes);

    // Test metadata
    upload.add_metadata("key".to_string(), "value".to_string());
    assert_eq!(upload.metadata_value("key").unwrap(), "value");
}

#[test]
fn new_uploads_get_distinct_ids() {
    let a = Upload::new("/f/a".to_string(), 1, 1).unwrap();
    let b = Upload::new("/f/a".to_string(), 1, 1).unwrap();
    assert_ne!(a.id, b.id);
}

#[test]
fn metadata_keeps_order_and_replaces() {
    let mut u = Upload::from_parts("x".into(), "/f".into(), 1, 1, 0).unwrap();
    u.add_metadata("b".into(), "1".into());
    u.add_metadata("a".into(), "2".into());
    u.add_metadata("b".into(), "3".into());
    assert_eq!(u.metadata, vec![("b".to_string(), "3".to_string()), ("a".to_string(), "2".to_string())]);
    assert!(u.metadata_value("c").is_none());
}

#[test]
fn location_is_set_once() {
    let mut u = Upload::from_parts("x".into(), "/f".into(), 1, 1, 0).unwrap();
    u.set_location("http://s/files/a".into()).unwrap();
    assert!(matches!(u.set_location("http://s/files/b".into()), Err(TusError::InvalidState(_))));
    assert_eq!(u.location.as_deref(), Some("http://s/files/a"));
}

#[test]
fn from_parts_fills_fields() {
    let u = Upload::from_parts("id-1".into(), "/data/video.mp4".into(), 5000, 1000, 42).unwrap();
    assert_eq!(u.id, "id-1");
    assert_eq!(u.filename, "video.mp4");
    assert_eq!(u.progress.total_chunks, 5);
    assert_eq!(u.created_at, 42);
    assert_eq!(u.updated_at, 42);
    assert!(u.location.is_none());
}

#[test]
fn invalid_file_name_is_config_error() {
    for p in ["", "/", "/a/..", ".", "/.", "./"] {
        let r = Upload::from_parts("x".into(), p.into(), 1, 1, 0);
        assert!(matches!(r, Err(TusError::Config(_))), "{:?}", p);
    }
}

#[test]
fn file_name_takes_last_component() {
    assert_eq!(file_name("/a/b/c.txt").as_deref(), Some("c.txt"));
    assert_eq!(file_name("c.txt").as_deref(), Some("c.txt"));
    assert_eq!(file_name("/a/b/").as_deref(), Some("b"));
    assert_eq!(file_name("/a/b//").as_deref(), Some("b"));
    assert_eq!(file_name("/a/.hidden").as_deref(), Some(".hidden"));
    assert_eq!(file_name("/a/...").as_deref(), Some("..."));
    assert_eq!(file_name("/"), None);
    assert_eq!(file_name("a/.."), None);
    assert_eq!(file_name("dir/.").as_deref(), Some("dir"));
    assert_eq!(file_name("a/b/./").as_deref(), Some("b"));
}

#[test]
fn update_progress_keeps_state() {
    let mut u = Upload::from_parts("x".into(), "/f".into(), 100, 10, 0).unwrap();
    u.transition_to(UploadState::Active).unwrap();
    u.update_progress(10, true);
    assert_eq!(u.progress.bytes_transferred, 10);
    assert_eq!(u.progress.chunks_completed, 1);
    assert_eq!(u.state, UploadState::Active);
}

#[test]
fn error_messages() {
    assert_eq!(TusError::Protocol(503).message(), "Unexpected HTTP status: 503");
    assert_eq!(TusError::Config("x".into()).message(), "Configuration error: x");
    assert_eq!(TusError::UploadNotFound("id".into()).message(), "Upload not found: id");
    assert_eq!(TusError::NetworkError("down".into()).message(), "Network error: down");
    assert_eq!(TusError::IOError("gone".into()).message(), "IO error: gone");
    assert_eq!(UploadState::Cancelled.name(), "Cancelled");
}

#[test]
fn clone_is_equal() {
    let mut u = Upload::from_parts("x".into(), "/f".into(), 100, 10, 0).unwrap();
    u.add_metadata("k".into(), "v".into());
    let c = u.clone();
    assert_eq!(c.id, u.id);
    assert_eq!(c.metadata, u.metadata);
    assert_eq!(c.progress.total_bytes, 100);
}

#[test]
fn metadata_header_is_base64() {
    let mut u = Upload::from_parts("x".into(), "/f".into(), 1, 1, 0).unwrap();
    assert!(u.upload_metadata().is_none());
    u.add_metadata("filename".into(), "world_domination_plan.pdf".into());
    u.add_metadata("is_confidential".into(), "".into());
    u.add_metadata("k".into(), "ab".into());
    u.add_metadata("m".into(), "a".into());
    let h = String::from_utf8(u.upload_metadata().unwrap()).unwrap();
    assert_eq!(h, "filename d29ybGRfZG9taW5hdGlvbl9wbGFuLnBkZg==,is_confidential ,k YWI=,m YQ==");
}

#[test]
fn base64_of_utf8_and_binary() {
    assert_eq!(base64_encode(b"Man"), b"TWFu".to_vec());
    assert_eq!(base64_encode(&[0xff, 0xfe, 0xfd, 0xfc]), b"//79/A==".to_vec());
    assert_eq!(base64_encode("é".as_bytes()), b"w6k=".to_vec());
    assert_eq!(base64_encode(b""), Vec::<u8>::new());
}

#[test]
fn transition_at_stamps_time() {
    let mut u = Upload::from_parts("x".into(), "/f".into(), 100, 10, 0).unwrap();
    u.transition_to_at(UploadState::Active, 77).unwrap();
    assert_eq!(u.updated_at, 77);
    assert!(u.transition_to_at(UploadState::Pending, 99).is_err());
    assert_eq!(u.updated_at, 77);
}

#[test]
fn new_upload_error_text() {
    match Upload::new("/".into(), 1, 1) {
        Err(TusError::Config(m)) => assert_eq!(m, "Invalid filename"),
        other => panic!("{:?}", other),
    }
}
