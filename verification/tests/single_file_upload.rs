use bili_sync::config::{AutoUploadOption, OpenListAuth, OpenListOption};
use bili_sync::error::UploadError;
use bili_sync::single_file::{SingleFileAction, SingleFileEvent, SingleFileUpload};
use bili_sync::upload_record::{
    Model, Timestamp, STATUS_FAILED, STATUS_PENDING, STATUS_SUCCEEDED, STATUS_UPLOADING,
};

fn config(retry_attempts: u32) -> AutoUploadOption {
    AutoUploadOption {
        enabled: true,
        delete_local_after_upload: false,
        retry_attempts,
        retry_delay_secs: 7,
        openlist: OpenListOption {
            endpoint: "http://h".to_string(),
            remote_dir: "/dav/".to_string(),
            auth: OpenListAuth::Unconfigured,
        },
    }
}

fn record(status: i32, attempts: i32) -> Model {
    Model {
        id: 11,
        video_id: Some(1),
        page_id: Some(2),
        youtube_video_id: None,
        local_path: "/data/up/a.mp4".to_string(),
        remote_path: "/dav/up/a.mp4".to_string(),
        status,
        attempts,
        last_error: None,
        uploaded_at: None,
        created_at: Timestamp { seconds: 1, nanos: 0 },
        updated_at: Timestamp { seconds: 1, nanos: 0 },
    }
}

fn started(retry_attempts: u32) -> SingleFileUpload {
    let (u, a) = SingleFileUpload::start(
        &config(retry_attempts),
        Some(1),
        Some(2),
        None,
        "/data/up/a.mp4",
        Ok(Some("up/a.mp4")),
    )
    .unwrap();
    assert!(matches!(a, SingleFileAction::FindRecord));
    u
}

fn expect_attempt(a: &SingleFileAction, n: i32) {
    match a {
        SingleFileAction::WriteRecord(w) => {
            assert_eq!(w.status, STATUS_UPLOADING);
            assert_eq!(w.attempts, Some(n));
            assert_eq!(w.id, 11);
        }
        other => panic!("{:?}", other),
    }
}

#[test]
fn start_places_file_under_remote_dir() {
    let u = started(3);
    assert_eq!(u.remote_path, "/dav/up/a.mp4");
    assert_eq!(u.local_path, "/data/up/a.mp4");
    assert_eq!(u.max_attempts, 3);
    assert_eq!(u.delay_secs, 7);
}

#[test]
fn start_refuses_file_outside_base() {
    let r = SingleFileUpload::start(&config(3), None, None, Some(4), "/elsewhere/a.mp4", Err("prefix not found"));
    assert!(matches!(r, Err(UploadError::NoRelativePath { ref path, ref cause }) if path == "/elsewhere/a.mp4" && cause == "prefix not found"));
    let r = SingleFileUpload::start(&config(3), None, None, Some(4), "/data/a.mp4", Ok(None));
    assert!(matches!(r, Err(UploadError::NonUtf8Path)));
}

#[test]
fn uploaded_file_is_skipped() {
    let mut u = started(3);
    let a = u.step(SingleFileEvent::RecordFound(Some(record(STATUS_SUCCEEDED, 1))));
    assert!(matches!(a, SingleFileAction::Finish(Ok(()))));
}

#[test]
fn new_file_is_recorded_then_uploaded_once() {
    let mut u = started(3);
    let a = u.step(SingleFileEvent::RecordFound(None));
    match &a {
        SingleFileAction::InsertRecord(n) => {
            assert_eq!(n.status, STATUS_PENDING);
            assert_eq!(n.attempts, 0);
            assert_eq!(n.local_path, "/data/up/a.mp4");
            assert_eq!(n.remote_path, "/dav/up/a.mp4");
            assert_eq!(n.video_id, Some(1));
        }
        other => panic!("{:?}", other),
    }
    let a = u.step(SingleFileEvent::RecordInserted(record(STATUS_PENDING, 0)));
    expect_attempt(&a, 1);
    let a = u.step(SingleFileEvent::RecordWritten);
    assert!(matches!(a, SingleFileAction::Upload));
    let a = u.step(SingleFileEvent::UploadDone(Ok(())));
    match &a {
        SingleFileAction::WriteRecord(w) => {
            assert_eq!(w.status, STATUS_SUCCEEDED);
            assert_eq!(w.last_error, Some(None));
        }
        other => panic!("{:?}", other),
    }
    let a = u.step(SingleFileEvent::RecordWritten);
    assert!(matches!(a, SingleFileAction::Finish(Ok(()))));
}

#[test]
fn failures_are_retried_after_a_pause_until_the_limit() {
    let mut u = started(2);
    let a = u.step(SingleFileEvent::RecordFound(Some(record(STATUS_PENDING, 0))));
    expect_attempt(&a, 1);
    assert!(matches!(u.step(SingleFileEvent::RecordWritten), SingleFileAction::Upload));
    match u.step(SingleFileEvent::UploadDone(Err("first".to_string()))) {
        SingleFileAction::WriteRecord(w) => {
            assert_eq!(w.status, STATUS_FAILED);
            assert_eq!(w.last_error, Some(Some("first".to_string())));
        }
        other => panic!("{:?}", other),
    }
    assert!(matches!(u.step(SingleFileEvent::RecordWritten), SingleFileAction::Sleep { secs: 7 }));
    let a = u.step(SingleFileEvent::SleepDone);
    expect_attempt(&a, 2);
    assert!(matches!(u.step(SingleFileEvent::RecordWritten), SingleFileAction::Upload));
    assert!(matches!(
        u.step(SingleFileEvent::UploadDone(Err("second".to_string()))),
        SingleFileAction::WriteRecord(_)
    ));
    match u.step(SingleFileEvent::RecordWritten) {
        SingleFileAction::Finish(Err(UploadError::AttemptsExhausted { last_error })) => {
            assert_eq!(last_error, Some("second".to_string()));
        }
        other => panic!("{:?}", other),
    }
}

#[test]
fn attempts_continue_from_the_record_count() {
    let mut u = started(3);
    let a = u.step(SingleFileEvent::RecordFound(Some(record(STATUS_FAILED, 2))));
    expect_attempt(&a, 3);
}

#[test]
fn exhausted_record_is_not_uploaded() {
    let mut u = started(2);
    let a = u.step(SingleFileEvent::RecordFound(Some(record(STATUS_FAILED, 2))));
    assert!(matches!(a, SingleFileAction::Finish(Err(UploadError::AttemptsExhausted { last_error: None }))));
    let mut u = started(0);
    let a = u.step(SingleFileEvent::RecordFound(None));
    assert!(matches!(a, SingleFileAction::InsertRecord(_)));
    let a = u.step(SingleFileEvent::RecordInserted(record(STATUS_PENDING, 0)));
    assert!(matches!(a, SingleFileAction::Finish(Err(UploadError::AttemptsExhausted { last_error: None }))));
}

#[test]
fn out_of_turn_events_are_recognised() {
    let u = started(2);
    assert!(u.is_expected(&SingleFileEvent::RecordFound(None)));
    assert!(!u.is_expected(&SingleFileEvent::SleepDone));
}
