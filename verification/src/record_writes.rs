//! The writes that the uploader makes to upload records: the record it
//! inserts for a new file, and the updates that mark each attempt.

use vstd::prelude::*;
use crate::upload_record::{
    Model,
    Timestamp,
    STATUS_FAILED,
    STATUS_PENDING,
    STATUS_SUCCEEDED,
    STATUS_UPLOADING,
};

verus! {

/// `chrono::Utc::now()`, as whole seconds since the Unix epoch and the
/// nanoseconds past them. Nothing is claimed of the value: it is the clock's.
#[verifier::external_body]
fn current_time() -> (t: Timestamp) {
    let now = chrono::Utc::now();
    Timestamp { seconds: now.timestamp(), nanos: now.timestamp_subsec_nanos() }
}

/// A record to insert; the store gives it its id.
#[derive(Debug)]
pub struct NewRecord {
    pub video_id: Option<i32>,
    pub page_id: Option<i32>,
    pub youtube_video_id: Option<i32>,
    pub local_path: String,
    pub remote_path: String,
    pub status: i32,
    pub attempts: i32,
    pub last_error: Option<String>,
    pub uploaded_at: Option<Timestamp>,
    pub created_at: Timestamp,
    pub updated_at: Timestamp,
}

impl NewRecord {
    /// The record as stored under `id`.
    pub open spec fn stored_as(self, id: i32) -> Model {
        Model {
            id,
            video_id: self.video_id,
            page_id: self.page_id,
            youtube_video_id: self.youtube_video_id,
            local_path: self.local_path,
            remote_path: self.remote_path,
            status: self.status,
            attempts: self.attempts,
            last_error: self.last_error,
            uploaded_at: self.uploaded_at,
            created_at: self.created_at,
            updated_at: self.updated_at,
        }
    }
}

/// An update of one record: the status and time always change; the other
/// columns change only where they hold `Some`.
#[derive(Debug)]
pub struct RecordUpdate {
    pub id: i32,
    pub status: i32,
    pub attempts: Option<i32>,
    pub last_error: Option<Option<String>>,
    pub uploaded_at: Option<Option<Timestamp>>,
    pub updated_at: Timestamp,
}

impl RecordUpdate {
    /// The record `m` once this update is written to it.
    pub open spec fn applied_to(self, m: Model) -> Model {
        Model {
            status: self.status,
            attempts: match self.attempts {
                Some(a) => a,
                None => m.attempts,
            },
            last_error: match self.last_error {
                Some(e) => e,
                None => m.last_error,
            },
            uploaded_at: match self.uploaded_at {
                Some(u) => u,
                None => m.uploaded_at,
            },
            updated_at: self.updated_at,
            ..m
        }
    }
}

/// Whether `n` is the record of a file seen for the first time at `now`:
/// pending, no attempt yet, no error, created and updated at `now`.
pub open spec fn is_fresh_record(
    n: NewRecord,
    video_id: Option<i32>,
    page_id: Option<i32>,
    youtube_video_id: Option<i32>,
    local_path: Seq<char>,
    remote_path: Seq<char>,
    now: Timestamp,
) -> bool {
    &&& n.video_id == video_id
    &&& n.page_id == page_id
    &&& n.youtube_video_id == youtube_video_id
    &&& n.local_path@ == local_path
    &&& n.remote_path@ == remote_path
    &&& n.status == STATUS_PENDING
    &&& n.attempts == 0
    &&& n.last_error is None
    &&& n.uploaded_at is None
    &&& n.created_at == now
    &&& n.updated_at == now
}

/// The record inserted for a file seen for the first time, at time `now`.
pub fn new_record_at(
    video_id: Option<i32>,
    page_id: Option<i32>,
    youtube_video_id: Option<i32>,
    local_path: &str,
    remote_path: &str,
    now: Timestamp,
) -> (r: NewRecord)
    ensures
        is_fresh_record(r, video_id, page_id, youtube_video_id, local_path@, remote_path@, now),
{
    NewRecord {
        video_id,
        page_id,
        youtube_video_id,
        local_path: crate::text::owned(local_path),
        remote_path: crate::text::owned(remote_path),
        status: STATUS_PENDING,
        attempts: 0,
        last_error: None,
        uploaded_at: None,
        created_at: now,
        updated_at: now,
    }
}

/// What to do about the record of a file: keep the one found, or insert a
/// new one.
#[derive(Debug)]
pub enum RecordChoice {
    Existing(Model),
    Insert(NewRecord),
}

/// Keeps the record found for the file, or else builds a new pending one
/// stamped with the current time.
pub fn upsert_upload_record(
    existing: Option<Model>,
    video_id: Option<i32>,
    page_id: Option<i32>,
    youtube_video_id: Option<i32>,
    local_path: &str,
    remote_path: &str,
) -> (r: RecordChoice)
    ensures
        existing matches Some(m) ==> r == RecordChoice::Existing(m),
        existing is None ==> (r matches RecordChoice::Insert(n) && is_fresh_record(
            n,
            video_id,
            page_id,
            youtube_video_id,
            local_path@,
            remote_path@,
            n.created_at,
        )),
{
    match existing {
        Some(m) => RecordChoice::Existing(m),
        None => {
            let now = current_time();
            RecordChoice::Insert(
                new_record_at(video_id, page_id, youtube_video_id, local_path, remote_path, now),
            )
        },
    }
}

/// The update that starts attempt `attempt` at time `now`: status
/// uploading, the attempt count set to `attempt`.
pub open spec fn starting_attempt(id: i32, attempt: i32, now: Timestamp) -> RecordUpdate {
    RecordUpdate {
        id,
        status: STATUS_UPLOADING,
        attempts: Some(attempt),
        last_error: None,
        uploaded_at: None,
        updated_at: now,
    }
}

/// The update that records success at time `now`: status succeeded, the
/// error cleared, uploaded at `now`.
pub open spec fn recording_success(id: i32, now: Timestamp) -> RecordUpdate {
    RecordUpdate {
        id,
        status: STATUS_SUCCEEDED,
        attempts: None,
        last_error: Some(None),
        uploaded_at: Some(Some(now)),
        updated_at: now,
    }
}

/// Whether `u` records, at time `now`, that an attempt failed with `error`:
/// status failed, the error kept, the other columns untouched.
pub open spec fn is_failure_record(u: RecordUpdate, id: i32, error: Seq<char>, now: Timestamp) -> bool {
    &&& u.id == id
    &&& u.status == STATUS_FAILED
    &&& u.attempts is None
    &&& u.last_error matches Some(Some(e)) && e@ == error
    &&& u.uploaded_at is None
    &&& u.updated_at == now
}

/// The update that starts attempt `attempt` at time `now`.
pub fn uploading_update_at(id: i32, attempt: i32, now: Timestamp) -> (r: RecordUpdate)
    ensures
        r == starting_attempt(id, attempt, now),
{
    RecordUpdate {
        id,
        status: STATUS_UPLOADING,
        attempts: Some(attempt),
        last_error: None,
        uploaded_at: None,
        updated_at: now,
    }
}

/// The update that records success at time `now`.
pub fn succeeded_update_at(id: i32, now: Timestamp) -> (r: RecordUpdate)
    ensures
        r == recording_success(id, now),
{
    RecordUpdate {
        id,
        status: STATUS_SUCCEEDED,
        attempts: None,
        last_error: Some(None),
        uploaded_at: Some(Some(now)),
        updated_at: now,
    }
}

/// The update that records a failed attempt at time `now`.
pub fn failed_update_at(id: i32, error: &str, now: Timestamp) -> (r: RecordUpdate)
    ensures
        is_failure_record(r, id, error@, now),
{
    RecordUpdate {
        id,
        status: STATUS_FAILED,
        attempts: None,
        last_error: Some(Some(crate::text::owned(error))),
        uploaded_at: None,
        updated_at: now,
    }
}

/// `uploading_update_at` stamped with the current time.
pub fn mark_uploading(id: i32, attempt: i32) -> (r: RecordUpdate)
    ensures
        r == starting_attempt(id, attempt, r.updated_at),
{
    uploading_update_at(id, attempt, current_time())
}

/// `succeeded_update_at` stamped with the current time.
pub fn mark_succeeded(id: i32) -> (r: RecordUpdate)
    ensures
        r == recording_success(id, r.updated_at),
{
    succeeded_update_at(id, current_time())
}

/// `failed_update_at` stamped with the current time.
pub fn mark_failed(id: i32, error: &str) -> (r: RecordUpdate)
    ensures
        is_failure_record(r, id, error@, r.updated_at),
{
    failed_update_at(id, error, current_time())
}

} // verus!

verus! {

/// An attempt that starts and then succeeds leaves the record succeeded,
/// with that attempt's number, no error, and uploaded at the time of
/// success.
pub proof fn lemma_attempt_then_success(m: Model, id: i32, attempt: i32, start: Timestamp, end: Timestamp)
    ensures
        recording_success(id, end).applied_to(starting_attempt(id, attempt, start).applied_to(m))
            == (Model {
            status: STATUS_SUCCEEDED,
            attempts: attempt,
            last_error: None,
            uploaded_at: Some(end),
            updated_at: end,
            ..m
        }),
{
}

/// An attempt that starts and then fails leaves the record failed, with
/// that attempt's number and its error, and the upload time untouched.
pub proof fn lemma_attempt_then_failure(
    m: Model,
    id: i32,
    attempt: i32,
    start: Timestamp,
    failure: RecordUpdate,
    error: Seq<char>,
    end: Timestamp,
)
    requires
        is_failure_record(failure, id, error, end),
    ensures
        ({
            let after = failure.applied_to(starting_attempt(id, attempt, start).applied_to(m));
            &&& after.status == STATUS_FAILED
            &&& after.attempts == attempt
            &&& after.last_error matches Some(e) && e@ == error
            &&& after.uploaded_at == m.uploaded_at
            &&& after.updated_at == end
            &&& after.local_path == m.local_path
            &&& after.remote_path == m.remote_path
        }),
{
}

} // verus!
