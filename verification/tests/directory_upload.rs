use bili_sync::config::{AutoUploadOption, OpenListAuth, OpenListOption};
use bili_sync::directory::{
    upload_downloaded_file, upload_youtube_file, DirectoryAction, DirectoryEvent, DirectoryUpload,
};
use bili_sync::error::UploadError;

fn config(enabled: bool, delete: bool) -> AutoUploadOption {
    AutoUploadOption {
        enabled,
        delete_local_after_upload: delete,
        retry_attempts: 3,
        retry_delay_secs: 1,
        openlist: OpenListOption {
            endpoint: "http://h".to_string(),
            remote_dir: "/dav".to_string(),
            auth: OpenListAuth::Unconfigured,
        },
    }
}

fn job() -> bili_sync::directory::DirectoryJob {
    upload_downloaded_file(1, 2, "/data/up/v.mp4", Some("/data/up"), "v").unwrap()
}

#[test]
fn page_job_needs_a_parent() {
    let j = job();
    assert_eq!((j.video_id, j.page_id, j.youtube_video_id), (Some(1), Some(2), None));
    assert_eq!(j.dir, "/data/up");
    assert_eq!(j.name_prefix, Some("v".to_string()));
    assert!(matches!(
        upload_downloaded_file(1, 2, "v.mp4", None, "v"),
        Err(UploadError::NoParentDirectory { ref path }) if path == "v.mp4"
    ));
}

#[test]
fn youtube_job_takes_every_file() {
    let j = upload_youtube_file(5, "/yt/c/v.mp4", Some("/yt/c")).unwrap();
    assert_eq!((j.video_id, j.page_id, j.youtube_video_id), (None, None, Some(5)));
    assert_eq!(j.name_prefix, None);
    assert!(matches!(upload_youtube_file(5, "/", None), Err(UploadError::NoYoutubeParentDirectory { .. })));
}

#[test]
fn disabled_upload_does_nothing() {
    let (_, a) = DirectoryUpload::<String>::start(job(), &config(false, true));
    assert!(matches!(a, DirectoryAction::Finish(Ok(()))));
}

#[test]
fn missing_or_empty_directory_fails() {
    let (mut u, a) = DirectoryUpload::<String>::start(job(), &config(true, false));
    assert!(matches!(a, DirectoryAction::CheckDir));
    assert!(matches!(
        u.step(DirectoryEvent::DirChecked(false)),
        DirectoryAction::Finish(Err(UploadError::NotADirectory { ref path })) if path == "/data/up"
    ));
    let (mut u, _) = DirectoryUpload::<String>::start(job(), &config(true, false));
    assert!(matches!(u.step(DirectoryEvent::DirChecked(true)), DirectoryAction::CollectFiles));
    assert!(matches!(
        u.step(DirectoryEvent::FilesCollected(Vec::new())),
        DirectoryAction::Finish(Err(UploadError::EmptyDirectory { .. }))
    ));
}

fn uploading(delete: bool) -> DirectoryUpload<String> {
    let (mut u, _) = DirectoryUpload::<String>::start(job(), &config(true, delete));
    u.step(DirectoryEvent::DirChecked(true));
    let files: Vec<(String, String)> =
        ["a", "b", "c"].iter().map(|f| (f.to_string(), format!("/data/up/{}", f))).collect();
    assert!(matches!(u.step(DirectoryEvent::FilesCollected(files)), DirectoryAction::Connect));
    assert!(matches!(u.step(DirectoryEvent::Connected), DirectoryAction::UploadFile(0)));
    u
}

#[test]
fn every_file_is_uploaded_in_order_then_deleted_and_pruned() {
    let mut u = uploading(true);
    assert_eq!(u.file(0), "a");
    assert!(matches!(u.step(DirectoryEvent::FileUploaded(Ok(()))), DirectoryAction::UploadFile(1)));
    assert!(matches!(u.step(DirectoryEvent::FileUploaded(Ok(()))), DirectoryAction::UploadFile(2)));
    assert!(matches!(u.step(DirectoryEvent::FileUploaded(Ok(()))), DirectoryAction::RemoveFile(0)));
    assert!(matches!(u.step(DirectoryEvent::FileRemoved), DirectoryAction::RemoveFile(1)));
    assert!(matches!(u.step(DirectoryEvent::FileRemoved), DirectoryAction::RemoveFile(2)));
    assert!(matches!(u.step(DirectoryEvent::FileRemoved), DirectoryAction::PruneDirs));
    assert!(matches!(u.step(DirectoryEvent::DirsPruned), DirectoryAction::Finish(Ok(()))));
}

#[test]
fn nothing_is_deleted_without_the_setting() {
    let mut u = uploading(false);
    u.step(DirectoryEvent::FileUploaded(Ok(())));
    u.step(DirectoryEvent::FileUploaded(Ok(())));
    assert!(matches!(u.step(DirectoryEvent::FileUploaded(Ok(()))), DirectoryAction::Finish(Ok(()))));
}

#[test]
fn a_failure_keeps_the_files_and_reports_each_failed_one() {
    let mut u = uploading(true);
    assert!(matches!(
        u.step(DirectoryEvent::FileUploaded(Err("a failed".to_string()))),
        DirectoryAction::UploadFile(1)
    ));
    assert!(matches!(u.step(DirectoryEvent::FileUploaded(Ok(()))), DirectoryAction::UploadFile(2)));
    match u.step(DirectoryEvent::FileUploaded(Err("c failed".to_string()))) {
        DirectoryAction::Finish(Err(UploadError::FilesFailed { messages })) => {
            assert_eq!(messages, "上传文件 /data/up/a 失败：a failed\n上传文件 /data/up/c 失败：c failed");
        }
        other => panic!("{:?}", other),
    }
}

#[test]
fn events_out_of_turn_are_recognised() {
    let u = uploading(false);
    assert!(u.is_expected(&DirectoryEvent::FileUploaded(Ok(()))));
    assert!(!u.is_expected(&DirectoryEvent::Connected));
}
