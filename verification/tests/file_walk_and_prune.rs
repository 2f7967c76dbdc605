use bili_sync::file_walk::{EntryKind, FileWalk, MAX_DEPTH};
use bili_sync::prune::{PruneAction, PruneEvent, PruneWalk};

fn comps(path: &[&str]) -> Vec<Vec<u8>> {
    path.iter().map(|c| c.as_bytes().to_vec()).collect()
}

fn key(path: &str) -> Vec<Vec<u8>> {
    std::path::Path::new(path)
        .components()
        .map(|c| c.as_os_str().as_encoded_bytes().to_vec())
        .collect()
}

fn walked(w: FileWalk<String>) -> Vec<String> {
    w.into_sorted_files().into_iter().map(|(_, p)| p).collect()
}

fn walk_at(root: &str, prefix: Option<&str>) -> FileWalk<String> {
    FileWalk::new(root.to_string(), key(root), prefix.map(|p| p.to_string()))
}

fn add(w: &mut FileWalk<String>, dir: &str, name: &str, kind: EntryKind) {
    w.add_entry(format!("{}/{}", dir, name), name.as_bytes().to_vec(), kind);
}

#[test]
fn walk_keeps_files_matching_the_prefix() {
    let mut w = walk_at("/root", Some("v"));
    assert_eq!(w.next_dir(), Some("/root".to_string()));
    for (name, kind) in [
        ("v.mp4", EntryKind::File),
        ("v-poster.jpg", EntryKind::File),
        ("w.mp4", EntryKind::File),
        (".v", EntryKind::File),
        ("link", EntryKind::Other),
        ("Season 1", EntryKind::Directory),
    ] {
        add(&mut w, "/root", name, kind);
    }
    assert_eq!(w.next_dir(), Some("/root/Season 1".to_string()));
    assert_eq!(w.depth, 1);
    assert_eq!(w.current, key("/root/Season 1"));
    add(&mut w, "/root/Season 1", "v.nfo", EntryKind::File);
    assert_eq!(w.next_dir(), None);
    assert_eq!(
        walked(w),
        vec!["/root/Season 1/v.nfo".to_string(), "/root/v-poster.jpg".to_string(), "/root/v.mp4".to_string()]
    );
}

#[test]
fn walk_skips_names_whose_stem_is_not_text() {
    let mut w = walk_at("/d", Some("v"));
    w.next_dir();
    w.add_entry("/d/bad-stem".to_string(), vec![b'v', 0xff, b'.', b'm', b'p', b'4'], EntryKind::File);
    w.add_entry("/d/bad-extension".to_string(), vec![b'v', b'.', 0xff], EntryKind::File);
    assert_eq!(walked(w), vec!["/d/bad-extension".to_string()]);
}

#[test]
fn walk_without_prefix_keeps_every_file() {
    let mut w = walk_at("/d", None);
    assert_eq!(w.next_dir(), Some("/d".to_string()));
    add(&mut w, "/d", "b", EntryKind::File);
    add(&mut w, "/d", "a", EntryKind::File);
    assert_eq!(w.next_dir(), None);
    assert_eq!(walked(w), vec!["/d/a".to_string(), "/d/b".to_string()]);
}

#[test]
fn walked_files_lie_under_the_start() {
    let mut w = walk_at("/data/up", None);
    w.next_dir();
    add(&mut w, "/data/up", "x", EntryKind::Directory);
    add(&mut w, "/data/up", "a.mp4", EntryKind::File);
    w.next_dir();
    add(&mut w, "/data/up/x", "b.mp4", EntryKind::File);
    let root = key("/data/up");
    let files = w.into_sorted_files();
    assert_eq!(files.len(), 2);
    for (k, p) in files {
        assert_eq!(k, key(&p));
        assert!(k.len() > root.len() && k[..root.len()] == root[..]);
    }
}

#[test]
fn files_sort_like_std_paths() {
    let names = ["a-b", "a.b", "a", "A", "中", "ab", "a b", "a.a"];
    let mut w = walk_at("/d", None);
    w.next_dir();
    for n in names {
        add(&mut w, "/d", n, EntryKind::File);
    }
    add(&mut w, "/d", "a", EntryKind::Directory);
    w.next_dir();
    for n in ["b", "a"] {
        add(&mut w, "/d/a", n, EntryKind::File);
    }
    let mut expected: Vec<std::path::PathBuf> =
        names.iter().map(|n| std::path::PathBuf::from(format!("/d/{}", n))).collect();
    expected.push("/d/a/b".into());
    expected.push("/d/a/a".into());
    expected.sort();
    let expected: Vec<String> = expected.iter().map(|p| p.to_string_lossy().to_string()).collect();
    assert_eq!(walked(w), expected);
}

#[test]
fn walk_reads_last_found_directory_first() {
    let mut w = FileWalk::new(0u32, key("/r"), None);
    w.next_dir();
    w.add_entry(1, b"one".to_vec(), EntryKind::Directory);
    w.add_entry(2, b"two".to_vec(), EntryKind::Directory);
    assert_eq!(w.next_dir(), Some(2));
    assert_eq!(w.next_dir(), Some(1));
    assert_eq!(w.next_dir(), None);
}

#[test]
fn walk_skips_directories_beyond_the_depth_limit() {
    let mut w = FileWalk::new(0usize, key("/r"), None);
    let mut level = 0usize;
    while let Some(d) = w.next_dir() {
        assert!(w.depth <= MAX_DEPTH);
        assert_eq!(w.current.len(), 2 + d);
        level = d;
        w.add_entry(d + 1, b"sub".to_vec(), EntryKind::Directory);
    }
    assert_eq!(MAX_DEPTH, 100);
    assert_eq!(level, 100);
    assert_eq!(w.skipped, vec![101]);
}

#[test]
fn prune_removes_empty_directories_up_to_the_base() {
    let (mut p, a) = PruneWalk::start(comps(&["/", "data", "up", "Season 1"]), comps(&["/", "data"]));
    assert!(matches!(a, PruneAction::CheckEmpty));
    assert!(matches!(p.step(PruneEvent::Checked(true)), PruneAction::RemoveDir));
    assert!(matches!(p.step(PruneEvent::Removed), PruneAction::CheckEmpty));
    assert_eq!(p.dir, comps(&["/", "data", "up"]));
    assert!(matches!(p.step(PruneEvent::Checked(true)), PruneAction::RemoveDir));
    assert!(matches!(p.step(PruneEvent::Removed), PruneAction::Finish));
    assert_eq!(p.dir, comps(&["/", "data"]));
}

#[test]
fn prune_stops_at_the_first_directory_not_empty() {
    let (mut p, _) = PruneWalk::start(comps(&["/", "data", "up", "Season 1"]), comps(&["/", "data"]));
    assert!(matches!(p.step(PruneEvent::Checked(true)), PruneAction::RemoveDir));
    assert!(matches!(p.step(PruneEvent::Removed), PruneAction::CheckEmpty));
    assert!(!p.is_expected(&PruneEvent::Removed));
    assert!(matches!(p.step(PruneEvent::Checked(false)), PruneAction::Finish));
    assert_eq!(p.dir, comps(&["/", "data", "up"]));
}

#[test]
fn prune_never_leaves_the_base() {
    for dir in [&["/", "other", "x"][..], &["/", "data2", "x"], &["/"], &["/", "data"]] {
        let (p, a) = PruneWalk::start(comps(dir), comps(&["/", "data"]));
        assert!(matches!(a, PruneAction::Finish));
        assert!(!p.may_remove());
    }
}
