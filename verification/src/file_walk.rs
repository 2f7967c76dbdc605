//! The walk that collects the files of a directory tree: directories are
//! read depth first, from the last found, and none deeper than the depth
//! limit below the start; files are kept when their stem begins with the
//! name prefix, if any. The caller reads each directory and reports its
//! entries by name; `P` is the caller's handle for a path. The walk builds
//! each path's components itself, from the start's and the entries' names,
//! so every file found lies under the start, and the files are put in path
//! order by them.

use vstd::prelude::*;
use crate::file_name::{stem_chars, stem_text};
use crate::path_order::key_of;
use crate::prune::{components, is_strictly_inside};
use crate::text::has_prefix;

verus! {

/// Directories this many levels below the start are still read; deeper
/// ones are skipped.
pub const MAX_DEPTH: usize = 100;

/// What an entry of a directory is (symbolic links are not followed, so
/// they are neither).
#[derive(Debug)]
pub enum EntryKind {
    Directory,
    File,
    Other,
}

/// Whether a file with stem `stem` (`None` when it has none that is valid
/// UTF-8) is kept under the name prefix `prefix`: always without a prefix,
/// else when the stem begins with it.
pub open spec fn stem_matches(prefix: Option<String>, stem: Option<Seq<char>>) -> bool {
    match prefix {
        None => true,
        Some(p) => match stem {
            Some(s) => has_prefix(s, p@),
            None => false,
        },
    }
}

/// Whether the path with components `key` is `root` or lies under it.
pub open spec fn is_under(key: Seq<Seq<u8>>, root: Seq<Seq<u8>>) -> bool {
    root.len() <= key.len() && key.take(root.len() as int) == root
}

/// The index of the last directory on `stack` that is not too deep.
pub open spec fn last_readable<P>(stack: Seq<(P, Vec<Vec<u8>>, usize)>) -> Option<int>
    decreases stack.len(),
{
    if stack.len() == 0 {
        None
    } else if stack.last().2 <= MAX_DEPTH {
        Some(stack.len() - 1)
    } else {
        last_readable(stack.drop_last())
    }
}

/// The handles of the entries of `stack` from the top down to index `n`
/// (`n` itself not among them), in the order they come off.
pub open spec fn popped_above<P>(stack: Seq<(P, Vec<Vec<u8>>, usize)>, n: int) -> Seq<P> {
    Seq::new((stack.len() - n) as nat, |i: int| stack[stack.len() - 1 - i].0)
}

/// A copy of the bytes `b`.
fn copy_bytes(b: &Vec<u8>) -> (r: Vec<u8>)
    ensures
        r@ == b@,
{
    let mut r: Vec<u8> = Vec::new();
    let mut i: usize = 0;
    while i < b.len()
        invariant
            i <= b@.len(),
            r@ == b@.take(i as int),
        decreases b@.len() - i,
    {
        r.push(b[i]);
        i = i + 1;
        assert(r@ =~= b@.take(i as int));
    }
    assert(b@.take(i as int) =~= b@);
    r
}

/// A copy of the path components `key`.
fn copy_key(key: &Vec<Vec<u8>>) -> (r: Vec<Vec<u8>>)
    ensures
        components(r@) == components(key@),
{
    let mut r: Vec<Vec<u8>> = Vec::new();
    let mut i: usize = 0;
    while i < key.len()
        invariant
            i <= key@.len(),
            r@.len() == i,
            forall|j: int| 0 <= j < i ==> (#[trigger] r@[j])@ == key@[j]@,
        decreases key@.len() - i,
    {
        r.push(copy_bytes(&key[i]));
        i = i + 1;
    }
    assert(components(r@) =~= components(key@));
    r
}

/// The components of the entry named `name` of the directory with
/// components `dir`.
fn child_key(dir: &Vec<Vec<u8>>, name: &Vec<u8>) -> (r: Vec<Vec<u8>>)
    ensures
        components(r@) == components(dir@).push(name@),
{
    let mut r = copy_key(dir);
    r.push(copy_bytes(name));
    assert(components(r@) =~= components(dir@).push(name@));
    r
}

/// The state of a walk.
pub struct FileWalk<P> {
    /// Only files whose stem begins with this are kept.
    pub name_prefix: Option<String>,
    /// The components of the start's path.
    pub root: Vec<Vec<u8>>,
    /// The directories still to read, with their paths' components and
    /// their depth; the last is read first.
    pub stack: Vec<(P, Vec<Vec<u8>>, usize)>,
    /// The files kept so far, with their paths' components, in the order
    /// found.
    pub files: Vec<(Vec<Vec<u8>>, P)>,
    /// The depth of the directory being read.
    pub depth: usize,
    /// The components of the path of the directory being read.
    pub current: Vec<Vec<u8>>,
    /// The directories dropped as too deep, in the order dropped; the caller
    /// may report and clear them.
    pub skipped: Vec<P>,
}

impl<P> FileWalk<P> {
    /// The components of the start's path.
    pub open spec fn root_key(&self) -> Seq<Seq<u8>> {
        components(self.root@)
    }

    /// The directory being read is not too deep; each directory's depth is
    /// the number of components its path has beyond the start's; every
    /// directory lies under the start, and every file kept strictly inside
    /// it.
    pub open spec fn wf(&self) -> bool {
        &&& self.depth <= MAX_DEPTH
        &&& is_under(components(self.current@), self.root_key())
        &&& self.depth == components(self.current@).len() - self.root_key().len()
        &&& forall|i: int|
            0 <= i < self.stack@.len() ==> {
                let (_, key, depth) = #[trigger] self.stack@[i];
                &&& is_under(components(key@), self.root_key())
                &&& depth == components(key@).len() - self.root_key().len()
            }
        &&& forall|i: int|
            0 <= i < self.files@.len() ==> is_strictly_inside(
                key_of(#[trigger] self.files@[i]),
                self.root_key(),
            )
    }

    /// A walk that starts at `root`, whose path has the components `key`,
    /// at depth 0.
    pub fn new(root: P, key: Vec<Vec<u8>>, name_prefix: Option<String>) -> (r: FileWalk<P>)
        ensures
            r.wf(),
            r.name_prefix == name_prefix,
            r.root_key() == components(key@),
            r.stack@.len() == 1,
            r.stack@[0].0 == root,
            components(r.stack@[0].1@) == components(key@),
            r.stack@[0].2 == 0,
            r.files@.len() == 0,
            r.skipped@.len() == 0,
    {
        let mut stack: Vec<(P, Vec<Vec<u8>>, usize)> = Vec::new();
        let start = copy_key(&key);
        let current = copy_key(&key);
        stack.push((root, start, 0));
        let r = FileWalk {
            name_prefix,
            root: key,
            stack,
            files: Vec::new(),
            depth: 0,
            current,
            skipped: Vec::new(),
        };
        proof {
            assert(components(r.current@).take(r.root_key().len() as int) =~= r.root_key());
            assert(components(r.stack@[0].1@).take(r.root_key().len() as int) =~= r.root_key());
        }
        r
    }
    /// The next directory to read: the last one on the stack that is not too
    /// deep; those above it, too deep, are dropped and added to `skipped`.
    /// `None` once no directory is left to read.
    pub fn next_dir(&mut self) -> (r: Option<P>)
        requires
            old(self).wf(),
        ensures
            final(self).wf(),
            final(self).name_prefix == old(self).name_prefix,
            final(self).root == old(self).root,
            final(self).files == old(self).files,
            match last_readable(old(self).stack@) {
                Some(k) => {
                    &&& final(self).skipped@ == old(self).skipped@ + popped_above(old(self).stack@, k + 1)
                    &&& r == Some(old(self).stack@[k].0)
                    &&& final(self).depth == old(self).stack@[k].2
                    &&& final(self).current == old(self).stack@[k].1
                    &&& final(self).stack@ == old(self).stack@.take(k)
                },
                None => {
                    &&& final(self).skipped@ == old(self).skipped@ + popped_above(old(self).stack@, 0)
                    &&& r is None
                    &&& final(self).stack@.len() == 0
                    &&& final(self).depth == old(self).depth
                    &&& final(self).current == old(self).current
                },
            },
    {
        loop
            invariant
                self.wf(),
                self.name_prefix == old(self).name_prefix,
                self.root == old(self).root,
                self.files == old(self).files,
                self.depth == old(self).depth,
                self.current == old(self).current,
                last_readable(self.stack@) == last_readable(old(self).stack@),
                self.stack@.len() <= old(self).stack@.len(),
                self.stack@ == old(self).stack@.take(self.stack@.len() as int),
                self.skipped@ == old(self).skipped@ + popped_above(
                    old(self).stack@,
                    self.stack@.len() as int,
                ),
            decreases self.stack@.len(),
        {
            let ghost before = self.stack@;
            match self.stack.pop() {
                None => {
                    return None;
                },
                Some((dir, key, depth)) => {
                    assert(before.drop_last() =~= self.stack@);
                    assert(before[before.len() - 1] == (dir, key, depth));
                    if depth <= MAX_DEPTH {
                        self.depth = depth;
                        self.current = key;
                        return Some(dir);
                    }
                    let ghost skipped_before = self.skipped@;
                    self.skipped.push(dir);
                    assert(self.stack@ =~= old(self).stack@.take(self.stack@.len() as int));
                    assert(self.skipped@ =~= old(self).skipped@ + popped_above(
                        old(self).stack@,
                        self.stack@.len() as int,
                    ));
                },
            }
        }
    }

    /// Takes in one entry, named `name`, of the directory being read: a
    /// directory is put on the stack one level deeper; a file is kept when
    /// its stem matches the name prefix; anything else is ignored. Each comes
    /// with its path's components: the current directory's, then `name`.
    pub fn add_entry(&mut self, path: P, name: Vec<u8>, kind: EntryKind)
        requires
            old(self).wf(),
        ensures
            final(self).wf(),
            final(self).name_prefix == old(self).name_prefix,
            final(self).root == old(self).root,
            final(self).depth == old(self).depth,
            final(self).current == old(self).current,
            final(self).skipped == old(self).skipped,
            kind is Directory ==> {
                &&& final(self).files == old(self).files
                &&& final(self).stack@.len() == old(self).stack@.len() + 1
                &&& final(self).stack@.drop_last() == old(self).stack@
                &&& final(self).stack@.last().0 == path
                &&& components(final(self).stack@.last().1@) == components(old(self).current@).push(name@)
                &&& final(self).stack@.last().2 == old(self).depth + 1
            },
            kind is File ==> final(self).stack == old(self).stack && if stem_matches(
                old(self).name_prefix,
                stem_chars(name@),
            ) {
                &&& final(self).files@.len() == old(self).files@.len() + 1
                &&& final(self).files@.drop_last() == old(self).files@
                &&& final(self).files@.last().1 == path
                &&& key_of(final(self).files@.last()) == components(old(self).current@).push(name@)
            } else {
                final(self).files == old(self).files
            },
            kind is Other ==> final(self).stack == old(self).stack && final(self).files == old(self).files,
    {
        let ghost root = self.root_key();
        match kind {
            EntryKind::Directory => {
                let key = child_key(&self.current, &name);
                proof {
                    assert(components(key@).take(root.len() as int) =~= components(
                        self.current@,
                    ).take(root.len() as int));
                }
                let ghost before = self.stack@;
                self.stack.push((path, key, self.depth + 1));
                assert(self.stack@.drop_last() =~= before);
            },
            EntryKind::File => {
                let stem = stem_text(name.as_slice());
                let keep = match &self.name_prefix {
                    None => true,
                    Some(p) => match &stem {
                        Some(s) => crate::text::starts_with(s.as_str(), p.as_str()),
                        None => false,
                    },
                };
                if keep {
                    let key = child_key(&self.current, &name);
                    proof {
                        assert(components(key@).take(root.len() as int) =~= components(
                            self.current@,
                        ).take(root.len() as int));
                    }
                    let ghost before = self.files@;
                    self.files.push((key, path));
                    assert(self.files@.drop_last() =~= before);
                }
            },
            EntryKind::Other => {},
        }
    }

    /// The files kept, in path order; each lies strictly inside the start.
    pub fn into_sorted_files(self) -> (r: Vec<(Vec<Vec<u8>>, P)>)
        requires
            self.wf(),
        ensures
            r@.to_multiset() == self.files@.to_multiset(),
            crate::path_order::in_path_order(r@),
            forall|i: int|
                0 <= i < r@.len() ==> is_strictly_inside(key_of(#[trigger] r@[i]), self.root_key()),
    {
        let ghost files = self.files@;
        let ghost root = self.root_key();
        let r = crate::path_order::sort_by_path(self.files);
        proof {
            assert forall|i: int| 0 <= i < r@.len() implies is_strictly_inside(
                key_of(#[trigger] r@[i]),
                root,
            ) by {
                r@.to_multiset_ensures();
                files.to_multiset_ensures();
                assert(r@.contains(r@[i]));
                assert(r@.to_multiset().count(r@[i]) > 0);
                assert(files.to_multiset().count(r@[i]) > 0);
                assert(files.contains(r@[i]));
            }
        }
        r
    }
}

/// Under a name prefix, a file is kept exactly when its stem is text that
/// is at least as long as the prefix and agrees with it at every position
/// of the prefix; a stem that differs from the prefix anywhere inside it,
/// or is not text, is never kept. Without a prefix every file is kept.
pub proof fn lemma_kept_stem_begins_with_prefix(prefix: String, stem: Option<Seq<char>>)
    ensures
        stem_matches(Some(prefix), stem) <==> (stem matches Some(t) && prefix@.len() <= t.len()
            && forall|i: int| 0 <= i < prefix@.len() ==> t[i] == prefix@[i]),
        stem_matches(None, stem),
{
    if let Some(t) = stem {
        crate::text::lemma_prefix_agrees(t, prefix@);
    }
}

/// A directory handed out by the walk is never more than `MAX_DEPTH`
/// levels below the start.
pub proof fn lemma_read_dirs_within_depth<P>(stack: Seq<(P, Vec<Vec<u8>>, usize)>)
    ensures
        last_readable(stack) matches Some(k) ==> 0 <= k < stack.len() && stack[k].2 <= MAX_DEPTH,
    decreases stack.len(),
{
    if stack.len() > 0 && stack.last().2 > MAX_DEPTH {
        lemma_read_dirs_within_depth(stack.drop_last());
    }
}

} // verus!
