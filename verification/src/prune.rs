//! The removal of emptied directories after the local files are deleted:
//! from the directory of the files up towards the base directory, never the
//! base itself nor anything outside it. Paths are canonical, given as their
//! components' bytes (the root as `/`).

use vstd::prelude::*;

verus! {

/// The components of a path, as byte strings.
pub open spec fn components(path: Seq<Vec<u8>>) -> Seq<Seq<u8>> {
    path.map_values(|c: Vec<u8>| c@)
}

/// Whether `dir` lies strictly inside `base`: `base`'s components begin
/// `dir`'s, and `dir` has more of them.
pub open spec fn is_strictly_inside(dir: Seq<Seq<u8>>, base: Seq<Seq<u8>>) -> bool {
    base.len() < dir.len() && dir.take(base.len() as int) == base
}

pub(crate) fn same_bytes(a: &Vec<u8>, b: &Vec<u8>) -> (r: bool)
    ensures
        r == (a@ == b@),
{
    if a.len() != b.len() {
        return false;
    }
    let mut i: usize = 0;
    while i < a.len()
        invariant
            a@.len() == b@.len(),
            i <= a@.len(),
            forall|j: int| 0 <= j < i ==> a@[j] == b@[j],
        decreases a@.len() - i,
    {
        if a[i] != b[i] {
            return false;
        }
        i = i + 1;
    }
    assert(a@ =~= b@);
    true
}

/// What the caller must do next.
#[derive(Debug)]
pub enum PruneAction {
    /// Find out whether the current directory is empty.
    CheckEmpty,
    /// Remove the current directory.
    RemoveDir,
    /// The walk is over.
    Finish,
}

/// What came of the last action.
#[derive(Debug)]
pub enum PruneEvent {
    /// Whether the current directory is empty.
    Checked(bool),
    /// The current directory was removed.
    Removed,
}

/// Where the walk stands.
#[derive(Debug)]
pub enum PrunePhase {
    Checking,
    Removing,
    Done,
}

/// The walk up from the directory of the deleted files: each directory
/// strictly inside the base is removed when empty, and the walk goes on
/// with its parent; it stops at the first directory that is not empty, or
/// on reaching the base.
pub struct PruneWalk {
    /// The directory being considered.
    pub dir: Vec<Vec<u8>>,
    /// The base directory, which is never removed.
    pub stop: Vec<Vec<u8>>,
    pub phase: PrunePhase,
}

impl PruneWalk {
    /// Whether the current directory lies strictly inside the base.
    pub open spec fn inside(self) -> bool {
        is_strictly_inside(components(self.dir@), components(self.stop@))
    }

    /// A directory is checked or removed only while it lies strictly inside
    /// the base.
    pub open spec fn wf(&self) -> bool {
        match self.phase {
            PrunePhase::Checking | PrunePhase::Removing => self.inside(),
            PrunePhase::Done => true,
        }
    }

    /// Whether `event` answers the action that this phase waits for.
    pub open spec fn accepts(&self, event: PruneEvent) -> bool {
        match (self.phase, event) {
            (PrunePhase::Checking, PruneEvent::Checked(_)) => true,
            (PrunePhase::Removing, PruneEvent::Removed) => true,
            _ => false,
        }
    }

    /// Whether `event` answers the action that this walk waits for.
    pub fn is_expected(&self, event: &PruneEvent) -> (r: bool)
        ensures
            r == self.accepts(*event),
    {
        match (&self.phase, event) {
            (PrunePhase::Checking, PruneEvent::Checked(_)) => true,
            (PrunePhase::Removing, PruneEvent::Removed) => true,
            _ => false,
        }
    }

    /// Whether `next` and `action` go on from directory `dir`: check it if it
    /// lies strictly inside the base, else stop.
    pub open spec fn visits(next: PruneWalk, action: PruneAction) -> bool {
        if next.inside() {
            next.phase is Checking && action is CheckEmpty
        } else {
            next.phase is Done && action is Finish
        }
    }

    /// The transition on `event`, as `next` and the action it asks for: an
    /// empty directory is removed, a directory that is not empty ends the
    /// walk, and after a removal the walk goes on with the parent.
    pub open spec fn transition(self, event: PruneEvent, next: PruneWalk, action: PruneAction) -> bool {
        match (self.phase, event) {
            (PrunePhase::Checking, PruneEvent::Checked(empty)) => if empty {
                next == PruneWalk { phase: PrunePhase::Removing, ..self } && action is RemoveDir
            } else {
                next == PruneWalk { phase: PrunePhase::Done, ..self } && action is Finish
            },
            (PrunePhase::Removing, PruneEvent::Removed) => next.dir@ == self.dir@.drop_last()
                && next.stop == self.stop && Self::visits(next, action),
            _ => false,
        }
    }

    /// Starts the walk at `dir`, towards the base `stop`.
    pub fn start(dir: Vec<Vec<u8>>, stop: Vec<Vec<u8>>) -> (r: (PruneWalk, PruneAction))
        ensures
            r.0.wf(),
            r.0.dir == dir,
            r.0.stop == stop,
            Self::visits(r.0, r.1),
    {
        let mut walk = PruneWalk { dir, stop, phase: PrunePhase::Done };
        if walk.may_remove() {
            walk.phase = PrunePhase::Checking;
            (walk, PruneAction::CheckEmpty)
        } else {
            (walk, PruneAction::Finish)
        }
    }

    /// Whether the current directory lies strictly inside the base directory.
    pub fn may_remove(&self) -> (r: bool)
        ensures
            r == self.inside(),
    {
        let n = self.stop.len();
        if n >= self.dir.len() {
            return false;
        }
        let mut i: usize = 0;
        while i < n
            invariant
                n == self.stop@.len(),
                n < self.dir@.len(),
                i <= n,
                forall|j: int| 0 <= j < i ==> self.dir@[j]@ == self.stop@[j]@,
            decreases n - i,
        {
            if !same_bytes(&self.dir[i], &self.stop[i]) {
                assert(components(self.dir@).take(n as int)[i as int] != components(
                    self.stop@,
                )[i as int]);
                return false;
            }
            i = i + 1;
        }
        assert(components(self.dir@).take(n as int) =~= components(self.stop@));
        true
    }

    /// Moves the walk on by one event: the next state and the action that it
    /// asks for are those of `transition`.
    pub fn step(&mut self, event: PruneEvent) -> (action: PruneAction)
        requires
            old(self).wf(),
            old(self).accepts(event),
        ensures
            final(self).wf(),
            old(self).transition(event, *final(self), action),
    {
        match event {
            PruneEvent::Checked(empty) => {
                if empty {
                    self.phase = PrunePhase::Removing;
                    PruneAction::RemoveDir
                } else {
                    self.phase = PrunePhase::Done;
                    PruneAction::Finish
                }
            },
            PruneEvent::Removed => {
                self.dir.pop();
                if self.may_remove() {
                    self.phase = PrunePhase::Checking;
                    PruneAction::CheckEmpty
                } else {
                    self.phase = PrunePhase::Done;
                    PruneAction::Finish
                }
            },
        }
    }
}

/// A directory is removed only after it was found empty, and it is checked
/// or removed only while it lies strictly inside the base (the base's
/// components begin its own, and it has more); a directory found not empty
/// ends the walk, and after a removal the walk moves to the parent.
pub proof fn lemma_remove_only_empty_inside(
    w: PruneWalk,
    event: PruneEvent,
    next: PruneWalk,
    action: PruneAction,
)
    requires
        w.wf(),
        w.accepts(event),
        w.transition(event, next, action),
    ensures
        action is RemoveDir ==> event == PruneEvent::Checked(true) && next.inside()
            && next.dir == w.dir,
        action is RemoveDir || action is CheckEmpty ==> next.stop@.len() < next.dir@.len()
            && forall|i: int| 0 <= i < next.stop@.len() ==> (#[trigger] next.dir@[i])@
            == next.stop@[i]@,
        event == PruneEvent::Checked(false) ==> action is Finish && next.phase is Done,
        event == PruneEvent::Removed ==> next.dir@ == w.dir@.drop_last() && next.stop == w.stop,
{
    if action is RemoveDir || action is CheckEmpty {
        assert forall|i: int| 0 <= i < next.stop@.len() implies (#[trigger] next.dir@[i])@
            == next.stop@[i]@ by {
            assert(components(next.dir@).take(components(next.stop@).len() as int)[i]
                == components(next.dir@)[i]);
        }
    }
}

/// Moving to the parent keeps the walk inside the base directory or at it:
/// the base's components still begin the current directory's, so the walk
/// can never reach a directory outside the base.
pub proof fn lemma_parent_stays_under_base(dir: Seq<Seq<u8>>, base: Seq<Seq<u8>>)
    requires
        is_strictly_inside(dir, base),
    ensures
        dir.drop_last().len() >= base.len(),
        dir.drop_last().take(base.len() as int) == base,
{
    assert(dir.drop_last().take(base.len() as int) =~= dir.take(base.len() as int));
}

} // verus!
