//! Where a file lands on the OpenList server, and which remote directories
//! still have to be created before it can land there.

use vstd::prelude::*;
use crate::config::AutoUploadOption;
use crate::error::UploadError;
use crate::text::{last_index_of, trim_end_char};

verus! {

/// The remote path of a file: the configured remote directory without its
/// trailing slashes, a slash, and the file's path relative to the download
/// base.
pub open spec fn remote_path_of(remote_dir: Seq<char>, relative: Seq<char>) -> Seq<char> {
    trim_end_char(remote_dir, '/') + seq!['/'] + relative
}

/// Places a file under the configured remote directory. `relative` is the
/// file's path relative to the base, or `None` when that path is not valid
/// UTF-8, which is refused.
pub fn remote_path(config: &AutoUploadOption, relative: Option<&str>) -> (r: Result<
    String,
    UploadError,
>)
    ensures
        relative is None ==> (r matches Err(UploadError::NonUtf8Path)),
        relative matches Some(rel) ==> (r matches Ok(p) && p@ == remote_path_of(
            config.openlist.remote_dir@,
            rel@,
        )),
{
    let mut dir = crate::text::trim_end_matches(config.openlist.remote_dir.as_str(), '/');
    match relative {
        None => Err(UploadError::NonUtf8Path),
        Some(rel) => {
            crate::text::push_char(&mut dir, '/');
            crate::text::push_str(&mut dir, rel);
            Ok(dir)
        },
    }
}

/// The remote directory that holds `path`: everything before its last
/// slash, when there is a slash and something before it.
pub open spec fn remote_parent(path: Seq<char>) -> Option<Seq<char>> {
    match last_index_of(path, '/') {
        Some(i) => if i > 0 {
            Some(path.take(i))
        } else {
            None
        },
        None => None,
    }
}

/// The remote directory that holds `path`, if it has one that is not empty.
pub fn parent_dir(path: &str) -> (r: Option<String>)
    ensures
        match remote_parent(path@) {
            Some(d) => r matches Some(s) && s@ == d,
            None => r is None,
        },
{
    proof {
        crate::text::lemma_last_index_of(path@, '/');
    }
    match crate::text::rsplit_once(path, '/') {
        Some((dir, _)) => {
            if dir.as_str().is_empty() {
                None
            } else {
                Some(dir)
            }
        },
        None => None,
    }
}

/// The directory that must be created before `path` can be written, given
/// the directories already created: the parent of `path`, unless it has
/// none or was already created.
pub open spec fn dir_needed(created: Set<Seq<char>>, path: Seq<char>) -> Option<Seq<char>> {
    match remote_parent(path) {
        Some(d) => if created.contains(d) {
            None
        } else {
            Some(d)
        },
        None => None,
    }
}

/// The remote directories a client has already created.
pub struct CreatedDirs {
    dirs: Vec<String>,
}

impl View for CreatedDirs {
    type V = Set<Seq<char>>;

    closed spec fn view(&self) -> Set<Seq<char>> {
        Set::new(|d: Seq<char>| exists|i: int| 0 <= i < self.dirs@.len() && self.dirs@[i]@ == d)
    }
}

impl CreatedDirs {
    /// No directory created yet.
    pub fn new() -> (r: CreatedDirs)
        ensures
            r@ == Set::<Seq<char>>::empty(),
    {
        let r = CreatedDirs { dirs: Vec::new() };
        assert(r@ =~= Set::<Seq<char>>::empty());
        r
    }

    /// Whether `dir` was already created.
    pub fn contains(&self, dir: &str) -> (r: bool)
        ensures
            r == self@.contains(dir@),
    {
        let mut i: usize = 0;
        while i < self.dirs.len()
            invariant
                i <= self.dirs@.len(),
                forall|j: int| 0 <= j < i ==> self.dirs@[j]@ != dir@,
            decreases self.dirs@.len() - i,
        {
            if crate::text::same_text(self.dirs[i].as_str(), dir) {
                assert(self@.contains(dir@));
                return true;
            }
            i = i + 1;
        }
        false
    }

    /// Records that `dir` now exists.
    pub fn insert(&mut self, dir: String)
        ensures
            final(self)@ == old(self)@.insert(dir@),
    {
        let ghost d = dir@;
        self.dirs.push(dir);
        assert(self@ =~= old(self)@.insert(d)) by {
            assert(self.dirs@[self.dirs@.len() - 1]@ == d);
            assert forall|x: Seq<char>| old(self)@.contains(x) implies self@.contains(x) by {
                let i = choose|i: int| 0 <= i < old(self).dirs@.len() && old(self).dirs@[i]@ == x;
                assert(self.dirs@[i] == old(self).dirs@[i]);
            }
            assert forall|x: Seq<char>| self@.contains(x) implies old(self)@.insert(d).contains(x) by {
                let i = choose|i: int| 0 <= i < self.dirs@.len() && self.dirs@[i]@ == x;
                if i < old(self).dirs@.len() {
                    assert(self.dirs@[i] == old(self).dirs@[i]);
                }
            }
        }
    }

    /// The directory to create before `path` can be written, if any.
    pub fn dir_to_create(&self, path: &str) -> (r: Option<String>)
        ensures
            match dir_needed(self@, path@) {
                Some(d) => r matches Some(s) && s@ == d,
                None => r is None,
            },
    {
        match parent_dir(path) {
            Some(dir) => {
                if self.contains(dir.as_str()) {
                    None
                } else {
                    Some(dir)
                }
            },
            None => None,
        }
    }
}

proof fn lemma_last_slash_before_name(dir: Seq<char>, name: Seq<char>)
    requires
        forall|i: int| 0 <= i < name.len() ==> name[i] != '/',
    ensures
        last_index_of(dir.push('/') + name, '/') == Some(dir.len() as int),
    decreases name.len(),
{
    if name.len() > 0 {
        assert((dir.push('/') + name).drop_last() =~= dir.push('/') + name.drop_last());
        lemma_last_slash_before_name(dir, name.drop_last());
    } else {
        assert(dir.push('/') + name =~= dir.push('/'));
    }
}

/// The directory asked for before writing `dir/name`, where `dir` is not
/// empty and `name` holds no slash, is `dir` itself, unless exactly that
/// directory was already created; no other created directory, an ancestor
/// of `dir` among them, spares it.
pub proof fn lemma_parent_created_once(created: Set<Seq<char>>, dir: Seq<char>, name: Seq<char>)
    requires
        dir.len() > 0,
        forall|i: int| 0 <= i < name.len() ==> name[i] != '/',
    ensures
        dir_needed(created, dir + seq!['/'] + name) == if created.contains(dir) {
            None
        } else {
            Some(dir)
        },
{
    lemma_last_slash_before_name(dir, name);
    assert(dir + seq!['/'] + name =~= dir.push('/') + name);
    assert((dir.push('/') + name).take(dir.len() as int) =~= dir);
}

/// A path with no slash after its first character has no directory to
/// create.
pub proof fn lemma_no_parent_nothing_created(created: Set<Seq<char>>, path: Seq<char>)
    requires
        forall|i: int| 0 < i < path.len() ==> path[i] != '/',
    ensures
        dir_needed(created, path) is None,
{
    crate::text::lemma_last_index_of(path, '/');
}

/// Once a directory is recorded as created, no path inside it asks for it
/// again.
pub proof fn lemma_created_dir_not_requested_again(
    created: Set<Seq<char>>,
    dir: Seq<char>,
    path: Seq<char>,
)
    requires
        remote_parent(path) == Some(dir),
    ensures
        dir_needed(created.insert(dir), path) is None,
{
}

} // verus!
