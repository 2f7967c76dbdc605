use bili_sync::record_writes::{
    failed_update_at, mark_failed, mark_succeeded, mark_uploading, new_record_at,
    succeeded_update_at, upsert_upload_record, uploading_update_at, RecordChoice,
};
use bili_sync::upload_record::{
    Model, Timestamp, STATUS_FAILED, STATUS_PENDING, STATUS_SUCCEEDED, STATUS_UPLOADING,
};

fn ts(seconds: i64) -> Timestamp {
    Timestamp { seconds, nanos: 0 }
}

fn model(status: i32, attempts: i32) -> Model {
    Model {
        id: 7,
        video_id: Some(1),
        page_id: Some(2),
        youtube_video_id: None,
        local_path: "/data/a.mp4".to_string(),
        remote_path: "/dav/a.mp4".to_string(),
        status,
        attempts,
        last_error: None,
        uploaded_at: None,
        created_at: ts(1),
        updated_at: ts(1),
    }
}

#[test]
fn new_record_is_pending_without_attempts() {
    let r = new_record_at(Some(1), Some(2), None, "/data/a.mp4", "/dav/a.mp4", ts(100));
    assert_eq!(r.video_id, Some(1));
    assert_eq!(r.page_id, Some(2));
    assert_eq!(r.youtube_video_id, None);
    assert_eq!(r.local_path, "/data/a.mp4");
    assert_eq!(r.remote_path, "/dav/a.mp4");
    assert_eq!(r.status, STATUS_PENDING);
    assert_eq!(r.attempts, 0);
    assert_eq!(r.last_error, None);
    assert_eq!(r.uploaded_at, None);
    assert_eq!(r.created_at, ts(100));
    assert_eq!(r.updated_at, ts(100));
}

#[test]
fn upsert_keeps_existing_record() {
    match upsert_upload_record(Some(model(STATUS_FAILED, 2)), None, None, Some(9), "/x", "/y") {
        RecordChoice::Existing(m) => {
            assert_eq!(m.id, 7);
            assert_eq!(m.attempts, 2);
        }
        other => panic!("{:?}", other),
    }
}

#[test]
fn upsert_builds_new_record_stamped_now() {
    match upsert_upload_record(None, None, None, Some(9), "/x", "/y") {
        RecordChoice::Insert(n) => {
            assert_eq!(n.youtube_video_id, Some(9));
            assert_eq!(n.status, STATUS_PENDING);
            assert_eq!(n.created_at, n.updated_at);
            assert!(n.created_at.seconds > 1_600_000_000);
        }
        other => panic!("{:?}", other),
    }
}

#[test]
fn updates_set_only_their_columns() {
    let u = uploading_update_at(7, 3, ts(5));
    assert_eq!((u.id, u.status, u.attempts), (7, STATUS_UPLOADING, Some(3)));
    assert!(u.last_error.is_none() && u.uploaded_at.is_none());
    assert_eq!(u.updated_at, ts(5));

    let s = succeeded_update_at(7, ts(6));
    assert_eq!((s.status, s.attempts), (STATUS_SUCCEEDED, None));
    assert_eq!(s.last_error, Some(None));
    assert_eq!(s.uploaded_at, Some(Some(ts(6))));

    let f = failed_update_at(7, "timeout", ts(7));
    assert_eq!((f.status, f.attempts), (STATUS_FAILED, None));
    assert_eq!(f.last_error, Some(Some("timeout".to_string())));
    assert_eq!(f.uploaded_at, None);
    assert_eq!(f.updated_at, ts(7));
}

#[test]
fn marks_are_stamped_with_the_clock() {
    let u = mark_uploading(1, 1);
    assert_eq!(u.status, STATUS_UPLOADING);
    assert!(u.updated_at.seconds > 1_600_000_000);
    let s = mark_succeeded(1);
    assert_eq!(s.uploaded_at, Some(Some(s.updated_at)));
    let f = mark_failed(1, "e");
    assert_eq!(f.last_error, Some(Some("e".to_string())));
    assert!(f.updated_at.seconds >= u.updated_at.seconds);
}
