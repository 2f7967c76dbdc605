//! The upload record: one row per local file that the uploader handled.

use vstd::prelude::*;

verus! {

/// The record waits for its first attempt.
pub const STATUS_PENDING: i32 = 0;

/// An attempt is running.
pub const STATUS_UPLOADING: i32 = 1;

/// The file was uploaded.
pub const STATUS_SUCCEEDED: i32 = 2;

/// The last attempt failed.
pub const STATUS_FAILED: i32 = 3;

/// A point in time: whole seconds since the Unix epoch and the nanoseconds
/// past them.
#[derive(Clone, Copy, Debug, PartialEq, Eq, Structural)]
pub struct Timestamp {
    pub seconds: i64,
    pub nanos: u32,
}

/// One upload record.
#[derive(Debug)]
pub struct Model {
    pub id: i32,
    pub video_id: Option<i32>,
    pub page_id: Option<i32>,
    pub youtube_video_id: Option<i32>,
    pub local_path: String,
    pub remote_path: String,
    pub status: i32,
    pub attempts: i32,
    pub last_error: Option<String>,
    pub uploaded_at: Option<Timestamp>,
    pub created_at: Timestamp,
    pub updated_at: Timestamp,
}

} // verus!
