//! The upload of one file, with retries, as a state machine: the caller
//! performs each action (a store query, a record write, the upload, a
//! pause) and hands back what came of it.

use vstd::prelude::*;
use crate::config::AutoUploadOption;
use crate::error::UploadError;
use crate::record_writes::{
    is_failure_record,
    is_fresh_record,
    mark_failed,
    mark_succeeded,
    mark_uploading,
    recording_success,
    starting_attempt,
    upsert_upload_record,
    NewRecord,
    RecordChoice,
    RecordUpdate,
};
use crate::remote::remote_path_of;
use crate::upload_record::{Model, STATUS_FAILED, STATUS_PENDING, STATUS_SUCCEEDED, STATUS_UPLOADING};

verus! {

/// What the caller must do next.
#[derive(Debug)]
pub enum SingleFileAction {
    /// Look up the record of the file by its local path.
    FindRecord,
    /// Insert this record; the store returns it with its id.
    InsertRecord(NewRecord),
    /// Write this update to the record.
    WriteRecord(RecordUpdate),
    /// Upload the local file to the remote path.
    Upload,
    /// Pause for this many seconds.
    Sleep { secs: u64 },
    /// The upload of this file is over, with this outcome.
    Finish(Result<(), UploadError>),
}

/// What came of the last action.
#[derive(Debug)]
pub enum SingleFileEvent {
    /// The record found for the file, if any.
    RecordFound(Option<Model>),
    /// The record as inserted.
    RecordInserted(Model),
    /// The update was written.
    RecordWritten,
    /// The upload succeeded, or failed with this message.
    UploadDone(Result<(), String>),
    /// The pause is over.
    SleepDone,
}

/// Where the upload stands. `base` is the attempt count the record had when
/// this upload began; `attempt` the number of the current attempt.
#[derive(Debug)]
pub enum SingleFilePhase {
    /// Waiting for the record lookup.
    Lookup,
    /// Waiting for the new record to be inserted.
    Inserting,
    /// Waiting for the write that starts attempt `attempt`.
    Marking { id: i32, base: i32, attempt: i32, last_error: Option<String> },
    /// Waiting for the upload of attempt `attempt`.
    Uploading { id: i32, base: i32, attempt: i32, last_error: Option<String> },
    /// Waiting for the write that records success.
    SavingSuccess,
    /// Waiting for the write that records the failure of attempt `attempt`.
    SavingFailure { id: i32, base: i32, attempt: i32, error: String },
    /// Waiting for the pause after the failed attempt `attempt`.
    Sleeping { id: i32, base: i32, attempt: i32, error: String },
    /// Over.
    Done,
}

/// The upload of one file.
pub struct SingleFileUpload {
    pub video_id: Option<i32>,
    pub page_id: Option<i32>,
    pub youtube_video_id: Option<i32>,
    /// The local path as text: the key of the record.
    pub local_path: String,
    /// Where the file goes on the server.
    pub remote_path: String,
    /// The number of the last attempt allowed.
    pub max_attempts: i32,
    /// The pause between attempts, in seconds.
    pub delay_secs: u64,
    pub phase: SingleFilePhase,
    /// The number of uploads asked for so far.
    pub uploads: Ghost<nat>,
    /// The number of uploads allowed: the last allowed attempt less the
    /// record's earlier attempt count, once the record is known.
    pub allowed: Ghost<int>,
}

impl SingleFileUpload {
    /// Attempt numbers stay above the record's old count and at most the
    /// last allowed one; a pause only follows an attempt that is not the last.
    pub open spec fn wf(&self) -> bool {
        match self.phase {
            SingleFilePhase::Lookup | SingleFilePhase::Inserting => self.uploads@ == 0
                && self.allowed@ == 0,
            SingleFilePhase::Marking { base, attempt, .. } => base < attempt <= self.max_attempts
                && self.allowed@ == self.max_attempts - base && self.uploads@ == attempt - base - 1,
            SingleFilePhase::Uploading { base, attempt, .. } => base < attempt <= self.max_attempts
                && self.allowed@ == self.max_attempts - base && self.uploads@ == attempt - base,
            SingleFilePhase::SavingFailure { base, attempt, .. } => base < attempt
                <= self.max_attempts && self.allowed@ == self.max_attempts - base && self.uploads@
                == attempt - base,
            SingleFilePhase::Sleeping { base, attempt, .. } => base < attempt < self.max_attempts
                && self.allowed@ == self.max_attempts - base && self.uploads@ == attempt - base,
            SingleFilePhase::SavingSuccess | SingleFilePhase::Done => self.uploads@
                <= self.allowed@,
        }
    }

    /// Whether `event` answers the action that this phase waits for.
    pub open spec fn accepts(&self, event: SingleFileEvent) -> bool {
        match (self.phase, event) {
            (SingleFilePhase::Lookup, SingleFileEvent::RecordFound(_)) => true,
            (SingleFilePhase::Inserting, SingleFileEvent::RecordInserted(_)) => true,
            (SingleFilePhase::Marking { .. }, SingleFileEvent::RecordWritten) => true,
            (SingleFilePhase::Uploading { .. }, SingleFileEvent::UploadDone(_)) => true,
            (SingleFilePhase::SavingSuccess, SingleFileEvent::RecordWritten) => true,
            (SingleFilePhase::SavingFailure { .. }, SingleFileEvent::RecordWritten) => true,
            (SingleFilePhase::Sleeping { .. }, SingleFileEvent::SleepDone) => true,
            _ => false,
        }
    }

    /// Whether `event` answers the action that this upload waits for.
    pub fn is_expected(&self, event: &SingleFileEvent) -> (r: bool)
        ensures
            r == self.accepts(*event),
    {
        match (&self.phase, event) {
            (SingleFilePhase::Lookup, SingleFileEvent::RecordFound(_)) => true,
            (SingleFilePhase::Inserting, SingleFileEvent::RecordInserted(_)) => true,
            (SingleFilePhase::Marking { .. }, SingleFileEvent::RecordWritten) => true,
            (SingleFilePhase::Uploading { .. }, SingleFileEvent::UploadDone(_)) => true,
            (SingleFilePhase::SavingSuccess, SingleFileEvent::RecordWritten) => true,
            (SingleFilePhase::SavingFailure { .. }, SingleFileEvent::RecordWritten) => true,
            (SingleFilePhase::Sleeping { .. }, SingleFileEvent::SleepDone) => true,
            _ => false,
        }
    }

    /// The same upload in another phase.
    pub open spec fn with_phase(self, phase: SingleFilePhase) -> SingleFileUpload {
        SingleFileUpload { phase, ..self }
    }

    /// Whether `next` and `action` begin the attempts of record `id`, whose
    /// attempt count is `base`: the first attempt is `base + 1` if that is
    /// allowed, else the upload ends with no error to report.
    pub open spec fn begins_attempts(
        self,
        next: SingleFileUpload,
        action: SingleFileAction,
        id: i32,
        base: i32,
    ) -> bool {
        if base < self.max_attempts {
            &&& next == SingleFileUpload {
                phase: SingleFilePhase::Marking {
                    id,
                    base,
                    attempt: (base + 1) as i32,
                    last_error: None,
                },
                allowed: Ghost(self.max_attempts - base),
                ..self
            }
            &&& action matches SingleFileAction::WriteRecord(u) && u == starting_attempt(
                id,
                (base + 1) as i32,
                u.updated_at,
            )
        } else {
            &&& next == SingleFileUpload { phase: SingleFilePhase::Done, allowed: Ghost(0), ..self }
            &&& action == SingleFileAction::Finish(
                Err(UploadError::AttemptsExhausted { last_error: None }),
            )
        }
    }

    /// The transition on `event`, as `next` and the action it asks for.
    pub open spec fn transition(
        self,
        event: SingleFileEvent,
        next: SingleFileUpload,
        action: SingleFileAction,
    ) -> bool {
        match (self.phase, event) {
            (SingleFilePhase::Lookup, SingleFileEvent::RecordFound(found)) => match found {
                Some(m) => if m.status == STATUS_SUCCEEDED {
                    next == self.with_phase(SingleFilePhase::Done) && action
                        == SingleFileAction::Finish(Ok(()))
                } else {
                    self.begins_attempts(next, action, m.id, m.attempts)
                },
                None => next == self.with_phase(SingleFilePhase::Inserting) && (
                action matches SingleFileAction::InsertRecord(n) && is_fresh_record(
                    n,
                    self.video_id,
                    self.page_id,
                    self.youtube_video_id,
                    self.local_path@,
                    self.remote_path@,
                    n.created_at,
                )),
            },
            (SingleFilePhase::Inserting, SingleFileEvent::RecordInserted(m)) => self.begins_attempts(
                next,
                action,
                m.id,
                m.attempts,
            ),
            (
                SingleFilePhase::Marking { id, base, attempt, last_error },
                SingleFileEvent::RecordWritten,
            ) => next == SingleFileUpload {
                phase: SingleFilePhase::Uploading { id, base, attempt, last_error },
                uploads: Ghost(self.uploads@ + 1),
                ..self
            } && action == SingleFileAction::Upload,
            (
                SingleFilePhase::Uploading { id, base, attempt, .. },
                SingleFileEvent::UploadDone(outcome),
            ) => match outcome {
                Ok(_) => next == self.with_phase(SingleFilePhase::SavingSuccess) && (
                action matches SingleFileAction::WriteRecord(u) && u == recording_success(
                    id,
                    u.updated_at,
                )),
                Err(e) => next == self.with_phase(
                    SingleFilePhase::SavingFailure { id, base, attempt, error: e },
                ) && (action matches SingleFileAction::WriteRecord(u) && is_failure_record(
                    u,
                    id,
                    e@,
                    u.updated_at,
                )),
            },
            (SingleFilePhase::SavingSuccess, SingleFileEvent::RecordWritten) => next
                == self.with_phase(SingleFilePhase::Done) && action == SingleFileAction::Finish(
                Ok(()),
            ),
            (
                SingleFilePhase::SavingFailure { id, base, attempt, error },
                SingleFileEvent::RecordWritten,
            ) => if attempt < self.max_attempts {
                next == self.with_phase(
                    SingleFilePhase::Sleeping { id, base, attempt, error },
                ) && action == SingleFileAction::Sleep { secs: self.delay_secs }
            } else {
                next == self.with_phase(SingleFilePhase::Done) && action
                    == SingleFileAction::Finish(
                    Err(UploadError::AttemptsExhausted { last_error: Some(error) }),
                )
            },
            (
                SingleFilePhase::Sleeping { id, base, attempt, error },
                SingleFileEvent::SleepDone,
            ) => next == self.with_phase(
                SingleFilePhase::Marking {
                    id,
                    base,
                    attempt: (attempt + 1) as i32,
                    last_error: Some(error),
                },
            ) && (action matches SingleFileAction::WriteRecord(u) && u == starting_attempt(
                id,
                (attempt + 1) as i32,
                u.updated_at,
            )),
            _ => false,
        }
    }

    /// Starts the upload of a file. `relative` is the file's path relative
    /// to the base directory: an error, with its text, when the file is not
    /// under it, and `Ok(None)` when that path is not valid UTF-8; both are
    /// refused. The
    /// last allowed attempt is the configured number of attempts taken as an
    /// `i32`.
    pub fn start(
        config: &AutoUploadOption,
        video_id: Option<i32>,
        page_id: Option<i32>,
        youtube_video_id: Option<i32>,
        local_path: &str,
        relative: Result<Option<&str>, &str>,
    ) -> (r: Result<(SingleFileUpload, SingleFileAction), UploadError>)
        ensures
            relative is Err ==> (r matches Err(UploadError::NoRelativePath { path: p, cause: c })
                && p@ == local_path@ && c@ == relative->Err_0@),
            relative == Ok::<Option<&str>, &str>(None) ==> (r matches Err(UploadError::NonUtf8Path)),
            relative matches Ok(Some(rel)) ==> (r matches Ok((u, a)) && u.wf() && u.phase
                is Lookup && a is FindRecord && u.video_id == video_id && u.page_id == page_id
                && u.youtube_video_id == youtube_video_id && u.local_path@ == local_path@
                && u.remote_path@ == remote_path_of(config.openlist.remote_dir@, rel@)
                && u.max_attempts == config.retry_attempts as i32 && u.delay_secs
                == config.retry_delay_secs),
    {
        let rel = match relative {
            Err(cause) => {
                return Err(
                    UploadError::NoRelativePath {
                        path: crate::text::owned(local_path),
                        cause: crate::text::owned(cause),
                    },
                );
            },
            Ok(rel) => rel,
        };
        let remote_path = crate::remote::remote_path(config, rel)?;
        let upload = SingleFileUpload {
            video_id,
            page_id,
            youtube_video_id,
            local_path: crate::text::owned(local_path),
            remote_path,
            max_attempts: config.retry_attempts as i32,
            delay_secs: config.retry_delay_secs,
            phase: SingleFilePhase::Lookup,
            uploads: Ghost(0),
            allowed: Ghost(0),
        };
        Ok((upload, SingleFileAction::FindRecord))
    }

    fn begin_attempts(&mut self, id: i32, base: i32) -> (action: SingleFileAction)
        ensures
            old(self).begins_attempts(*final(self), action, id, base),
    {
        if base < self.max_attempts {
            self.phase = SingleFilePhase::Marking { id, base, attempt: base + 1, last_error: None };
            self.allowed = Ghost(self.max_attempts - base);
            SingleFileAction::WriteRecord(mark_uploading(id, base + 1))
        } else {
            self.phase = SingleFilePhase::Done;
            self.allowed = Ghost(0);
            SingleFileAction::Finish(Err(UploadError::AttemptsExhausted { last_error: None }))
        }
    }

    /// Moves the upload on by one event: the next phase and the action that
    /// it asks for are those of `transition`.
    pub fn step(&mut self, event: SingleFileEvent) -> (action: SingleFileAction)
        requires
            old(self).wf(),
            old(self).accepts(event),
        ensures
            final(self).wf(),
            old(self).transition(event, *final(self), action),
    {
        let mut phase = SingleFilePhase::Done;
        std::mem::swap(&mut phase, &mut self.phase);
        assert(old(self).phase == phase);
        match (phase, event) {
            (SingleFilePhase::Lookup, SingleFileEvent::RecordFound(found)) => match found {
                Some(m) => {
                    if m.status == STATUS_SUCCEEDED {
                        SingleFileAction::Finish(Ok(()))
                    } else {
                        self.begin_attempts(m.id, m.attempts)
                    }
                },
                None => {
                    self.phase = SingleFilePhase::Inserting;
                    match upsert_upload_record(
                        None,
                        self.video_id,
                        self.page_id,
                        self.youtube_video_id,
                        self.local_path.as_str(),
                        self.remote_path.as_str(),
                    ) {
                        RecordChoice::Insert(n) => SingleFileAction::InsertRecord(n),
                        RecordChoice::Existing(_) => {
                            assert(false);
                            SingleFileAction::FindRecord
                        },
                    }
                },
            },
            (SingleFilePhase::Inserting, SingleFileEvent::RecordInserted(m)) => {
                self.begin_attempts(m.id, m.attempts)
            },
            (
                SingleFilePhase::Marking { id, base, attempt, last_error },
                SingleFileEvent::RecordWritten,
            ) => {
                self.phase = SingleFilePhase::Uploading { id, base, attempt, last_error };
                self.uploads = Ghost(self.uploads@ + 1);
                SingleFileAction::Upload
            },
            (
                SingleFilePhase::Uploading { id, base, attempt, last_error: _ },
                SingleFileEvent::UploadDone(outcome),
            ) => match outcome {
                Ok(_) => {
                    self.phase = SingleFilePhase::SavingSuccess;
                    SingleFileAction::WriteRecord(mark_succeeded(id))
                },
                Err(e) => {
                    let update = mark_failed(id, e.as_str());
                    self.phase = SingleFilePhase::SavingFailure { id, base, attempt, error: e };
                    SingleFileAction::WriteRecord(update)
                },
            },
            (SingleFilePhase::SavingSuccess, SingleFileEvent::RecordWritten) => {
                SingleFileAction::Finish(Ok(()))
            },
            (
                SingleFilePhase::SavingFailure { id, base, attempt, error },
                SingleFileEvent::RecordWritten,
            ) => {
                if attempt < self.max_attempts {
                    self.phase = SingleFilePhase::Sleeping { id, base, attempt, error };
                    SingleFileAction::Sleep { secs: self.delay_secs }
                } else {
                    SingleFileAction::Finish(
                        Err(UploadError::AttemptsExhausted { last_error: Some(error) }),
                    )
                }
            },
            (
                SingleFilePhase::Sleeping { id, base, attempt, error },
                SingleFileEvent::SleepDone,
            ) => {
                self.phase = SingleFilePhase::Marking {
                    id,
                    base,
                    attempt: attempt + 1,
                    last_error: Some(error),
                };
                SingleFileAction::WriteRecord(mark_uploading(id, attempt + 1))
            },
            _ => {
                assert(false);
                SingleFileAction::FindRecord
            },
        }
    }
}

} // verus!

verus! {

/// Every attempt that starts is numbered above the record's earlier attempt
/// count and at most the configured number of attempts.
pub proof fn lemma_attempts_in_range(
    u: SingleFileUpload,
    event: SingleFileEvent,
    next: SingleFileUpload,
    action: SingleFileAction,
)
    requires
        u.wf(),
        u.accepts(event),
        u.transition(event, next, action),
    ensures
        next.wf(),
        next.max_attempts == u.max_attempts,
        action is WriteRecord && action->WriteRecord_0.attempts is Some ==> (next.phase matches SingleFilePhase::Marking { base, attempt, .. }
            && action->WriteRecord_0.attempts->0 == attempt && base < attempt <= u.max_attempts),
{
    match (u.phase, event) {
        (SingleFilePhase::Lookup, SingleFileEvent::RecordFound(Some(m))) => {
            if m.status != STATUS_SUCCEEDED {
                assert(u.begins_attempts(next, action, m.id, m.attempts));
            }
        },
        (SingleFilePhase::Inserting, SingleFileEvent::RecordInserted(m)) => {
            assert(u.begins_attempts(next, action, m.id, m.attempts));
        },
        _ => {},
    }
}

/// A failed attempt is followed by a pause, and then another attempt,
/// exactly when another attempt is allowed; otherwise the upload ends with
/// that attempt's error.
pub proof fn lemma_retry_iff_attempts_remain(
    u: SingleFileUpload,
    next: SingleFileUpload,
    action: SingleFileAction,
)
    requires
        u.wf(),
        u.phase is SavingFailure,
        u.transition(SingleFileEvent::RecordWritten, next, action),
    ensures
        action is Sleep <==> u.phase->SavingFailure_attempt < u.max_attempts,
        !(action is Sleep) ==> action == SingleFileAction::Finish(
            Err(UploadError::AttemptsExhausted { last_error: Some(u.phase->SavingFailure_error) }),
        ),
{
}

/// A file whose record says it was uploaded is not uploaded again: the
/// upload ends at once, in success.
pub proof fn lemma_uploaded_file_skipped(
    u: SingleFileUpload,
    m: Model,
    next: SingleFileUpload,
    action: SingleFileAction,
)
    requires
        u.phase is Lookup,
        m.status == STATUS_SUCCEEDED,
        u.transition(SingleFileEvent::RecordFound(Some(m)), next, action),
    ensures
        next.phase is Done,
        action == SingleFileAction::Finish(Ok(())),
{
}

/// An upload is only ever started right after its attempt was recorded.
pub proof fn lemma_upload_follows_record(
    u: SingleFileUpload,
    event: SingleFileEvent,
    next: SingleFileUpload,
    action: SingleFileAction,
)
    requires
        u.transition(event, next, action),
        action is Upload,
    ensures
        u.phase is Marking,
        event is RecordWritten,
{
}

} // verus!

verus! {

/// The uploads asked for never exceed those allowed: each step counts the
/// upload it asks for, the allowance is fixed once the record is known
/// (the last allowed attempt less the record's earlier attempt count), and
/// in every state the count stays within it.
pub proof fn lemma_uploads_within_allowed(
    u: SingleFileUpload,
    event: SingleFileEvent,
    next: SingleFileUpload,
    action: SingleFileAction,
)
    requires
        u.wf(),
        u.accepts(event),
        u.transition(event, next, action),
    ensures
        u.uploads@ <= u.allowed@,
        next.uploads@ <= next.allowed@,
        next.uploads@ == u.uploads@ + if action is Upload {
            1int
        } else {
            0int
        },
        !(u.phase is Lookup || u.phase is Inserting) ==> next.allowed@ == u.allowed@,
        next.phase is Marking ==> next.allowed@ == next.max_attempts
            - next.phase->Marking_base,
{
    lemma_attempts_in_range(u, event, next, action);
}

/// A record found in any status but succeeded does not end the upload: the
/// next action starts attempt `attempts + 1` of that record, written as
/// uploading, when that attempt is allowed. The upload ends in success right
/// after the lookup exactly when the record found had succeeded.
pub proof fn lemma_unfinished_record_uploaded_again(
    u: SingleFileUpload,
    m: Model,
    next: SingleFileUpload,
    action: SingleFileAction,
)
    requires
        u.wf(),
        u.phase is Lookup,
        u.transition(SingleFileEvent::RecordFound(Some(m)), next, action),
    ensures
        m.status != STATUS_SUCCEEDED && m.attempts < u.max_attempts ==> {
            &&& action matches SingleFileAction::WriteRecord(w)
            &&& w.id == m.id
            &&& w.status == STATUS_UPLOADING
            &&& w.attempts == Some((m.attempts + 1) as i32)
            &&& next.phase matches SingleFilePhase::Marking { attempt, .. }
            &&& attempt == m.attempts + 1
        },
        (action matches SingleFileAction::Finish(Ok(_))) <==> m.status == STATUS_SUCCEEDED,
{
}

/// An upload that is over takes no further event, so it asks for no
/// further upload.
pub proof fn lemma_done_takes_no_event(u: SingleFileUpload, event: SingleFileEvent)
    requires
        u.phase is Done,
    ensures
        !u.accepts(event),
{
}

} // verus!

verus! {

/// What the upload writes to records stays within the four statuses: a new
/// record is pending, each update is uploading, succeeded or failed; the
/// succeeded status is written only right after an upload that succeeded;
/// a record already succeeded gets no write at all; and an attempt count
/// written is above the record's earlier count.
pub proof fn lemma_record_writes(
    u: SingleFileUpload,
    event: SingleFileEvent,
    next: SingleFileUpload,
    action: SingleFileAction,
)
    requires
        u.wf(),
        u.accepts(event),
        u.transition(event, next, action),
    ensures
        action is InsertRecord ==> action->InsertRecord_0.status == STATUS_PENDING,
        action is WriteRecord ==> ({
            let w = action->WriteRecord_0;
            &&& w.status == STATUS_UPLOADING || w.status == STATUS_SUCCEEDED || w.status
                == STATUS_FAILED
            &&& w.status == STATUS_SUCCEEDED ==> u.phase is Uploading && (event matches SingleFileEvent::UploadDone(
                outcome,
            ) && outcome is Ok)
            &&& w.attempts is Some ==> next.phase is Marking && w.attempts->0
                > next.phase->Marking_base
        }),
        (event matches SingleFileEvent::RecordFound(Some(m)) && m.status == STATUS_SUCCEEDED) ==> !(
        action is WriteRecord || action is InsertRecord),
{
    lemma_attempts_in_range(u, event, next, action);
    match (u.phase, event) {
        (SingleFilePhase::Lookup, SingleFileEvent::RecordFound(Some(m))) => {
            if m.status != STATUS_SUCCEEDED {
                assert(u.begins_attempts(next, action, m.id, m.attempts));
            }
        },
        (SingleFilePhase::Inserting, SingleFileEvent::RecordInserted(m)) => {
            assert(u.begins_attempts(next, action, m.id, m.attempts));
        },
        _ => {},
    }
}

} // verus!
