use bili_sync::config::{AutoUploadOption, OpenListAuth, OpenListOption};
use bili_sync::error::UploadError;
use bili_sync::remote::{parent_dir, remote_path, CreatedDirs};

fn config(remote_dir: &str) -> AutoUploadOption {
    AutoUploadOption {
        enabled: true,
        delete_local_after_upload: false,
        retry_attempts: 1,
        retry_delay_secs: 0,
        openlist: OpenListOption {
            endpoint: "http://h".to_string(),
            remote_dir: remote_dir.to_string(),
            auth: OpenListAuth::Unconfigured,
        },
    }
}

#[test]
fn remote_path_keeps_the_relative_path_under_the_remote_dir() {
    assert_eq!(remote_path(&config("/dav/"), Some("up/Season 1/a.mp4")).unwrap(), "/dav/up/Season 1/a.mp4");
    assert_eq!(remote_path(&config("/dav"), Some("a.nfo")).unwrap(), "/dav/a.nfo");
    assert_eq!(remote_path(&config("/"), Some("a")).unwrap(), "/a");
    assert_eq!(remote_path(&config(""), Some("a")).unwrap(), "/a");
}

#[test]
fn remote_path_refuses_non_utf8_relative_path() {
    assert!(matches!(remote_path(&config("/dav"), None), Err(UploadError::NonUtf8Path)));
}

#[test]
fn parent_dir_is_before_last_slash() {
    assert_eq!(parent_dir("/dav/up/a.mp4"), Some("/dav/up".to_string()));
    assert_eq!(parent_dir("/a.mp4"), None);
    assert_eq!(parent_dir("a.mp4"), None);
}

#[test]
fn created_dir_is_not_requested_again() {
    let mut dirs = CreatedDirs::new();
    assert_eq!(dirs.dir_to_create("/dav/up/a.mp4"), Some("/dav/up".to_string()));
    dirs.insert("/dav/up".to_string());
    assert!(dirs.contains("/dav/up"));
    assert_eq!(dirs.dir_to_create("/dav/up/a.mp4"), None);
    assert_eq!(dirs.dir_to_create("/dav/up/b.nfo"), None);
    assert_eq!(dirs.dir_to_create("/dav/other/c.mp4"), Some("/dav/other".to_string()));
    assert_eq!(dirs.dir_to_create("/c.mp4"), None);
}
