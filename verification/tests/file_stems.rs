use bili_sync::file_name::{file_stem, stem_text};
use std::path::Path;

fn std_stem(p: &str) -> String {
    Path::new(p).file_stem().and_then(|s| s.to_str()).unwrap_or("").to_string()
}

fn ours(p: &str) -> String {
    file_stem(Path::new(p).file_name().map(|n| n.as_encoded_bytes()))
}

#[test]
fn stem_matches_std() {
    for p in [
        "/a/video - P1.mp4", "/a/archive.tar.gz", "/a/.bashrc", "/a/.hidden.txt", "/a/noext", "/a/trailing.",
        "/", "", "/a/..", "a/.", "/a/中文.mkv", "x",
    ] {
        assert_eq!(ours(p), std_stem(p), "{:?}", p);
    }
}

#[test]
fn stem_of_dot_dot_and_missing_name() {
    assert_eq!(file_stem(Some(b"..")), "..");
    assert_eq!(file_stem(None), "");
    assert_eq!(file_stem(Some(b"ab.\xff")), "ab");
    assert_eq!(file_stem(Some(b"\xff.mp4")), "");
}

#[test]
fn stem_text_is_none_unless_the_stem_is_text() {
    assert_eq!(stem_text(b"v-poster.jpg"), Some("v-poster".to_string()));
    assert_eq!(stem_text(b".hidden"), Some(".hidden".to_string()));
    assert_eq!(stem_text(b"ab.\xff"), Some("ab".to_string()));
    assert_eq!(stem_text(b"\xff.mp4"), None);
}
