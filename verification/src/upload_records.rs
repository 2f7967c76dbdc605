//! The listing of upload records: which records a request selects, which
//! page of them it asks for, and what each listed record shows.

use vstd::prelude::*;
use crate::upload_record::{Model, Timestamp};

verus! {

/// A request for a page of upload records, newest update first, optionally
/// restricted to one video, page, YouTube video or status.
pub struct UploadRecordsRequest {
    pub video_id: Option<i32>,
    pub page_id: Option<i32>,
    pub youtube_video_id: Option<i32>,
    pub status: Option<i32>,
    /// The page to return, from 0.
    pub page: u64,
    /// The number of records per page.
    pub page_size: u64,
}

/// The page returned when the request names none: the first.
pub fn default_page() -> (r: u64)
    ensures
        r == 0,
{
    0
}

/// The page size used when the request names none: 50 records.
pub fn default_page_size() -> (r: u64)
    ensures
        r == 50,
{
    50
}

/// One condition on a record: a column equals a value.
#[derive(Debug)]
pub enum RecordFilter {
    VideoId(i32),
    PageId(i32),
    YoutubeVideoId(i32),
    Status(i32),
}

/// Whether record `m` meets condition `f` (a missing value meets none).
pub open spec fn filter_holds(f: RecordFilter, m: Model) -> bool {
    match f {
        RecordFilter::VideoId(v) => m.video_id == Some(v),
        RecordFilter::PageId(v) => m.page_id == Some(v),
        RecordFilter::YoutubeVideoId(v) => m.youtube_video_id == Some(v),
        RecordFilter::Status(v) => m.status == v,
    }
}

/// The condition for one optional request field.
pub open spec fn filter_for(value: Option<i32>, make: spec_fn(i32) -> RecordFilter) -> Seq<
    RecordFilter,
> {
    match value {
        Some(v) => seq![make(v)],
        None => Seq::empty(),
    }
}

/// The conditions of a request, in the order video, page, YouTube video,
/// status: one for each field that the request gives.
pub open spec fn request_filters(req: UploadRecordsRequest) -> Seq<RecordFilter> {
    filter_for(req.video_id, |v: i32| RecordFilter::VideoId(v)) + filter_for(
        req.page_id,
        |v: i32| RecordFilter::PageId(v),
    ) + filter_for(req.youtube_video_id, |v: i32| RecordFilter::YoutubeVideoId(v)) + filter_for(
        req.status,
        |v: i32| RecordFilter::Status(v),
    )
}

/// Whether the request selects record `m`: it agrees with every field that
/// the request gives.
pub open spec fn selects(req: UploadRecordsRequest, m: Model) -> bool {
    &&& (req.video_id matches Some(v) ==> m.video_id == Some(v))
    &&& (req.page_id matches Some(v) ==> m.page_id == Some(v))
    &&& (req.youtube_video_id matches Some(v) ==> m.youtube_video_id == Some(v))
    &&& (req.status matches Some(v) ==> m.status == v)
}

/// The conditions to put on the query for a request.
pub fn record_filters(req: &UploadRecordsRequest) -> (r: Vec<RecordFilter>)
    ensures
        r@ == request_filters(*req),
{
    let mut r: Vec<RecordFilter> = Vec::new();
    if let Some(v) = req.video_id {
        r.push(RecordFilter::VideoId(v));
    }
    if let Some(v) = req.page_id {
        r.push(RecordFilter::PageId(v));
    }
    if let Some(v) = req.youtube_video_id {
        r.push(RecordFilter::YoutubeVideoId(v));
    }
    if let Some(v) = req.status {
        r.push(RecordFilter::Status(v));
    }
    assert(r@ =~= request_filters(*req));
    r
}

/// The column by which a listing is ordered.
#[derive(Debug)]
pub enum OrderColumn {
    /// The time of the record's last update.
    UpdatedAt,
}

/// The query for a page of records: the conditions, the order, and which
/// page of which size.
#[derive(Debug)]
pub struct RecordsQuery {
    pub filters: Vec<RecordFilter>,
    pub order_column: OrderColumn,
    /// Whether the order is from the greatest value down.
    pub descending: bool,
    pub page_size: u64,
    pub page: u64,
}

/// The query for a request: its conditions, newest update first, and the
/// page and page size that it names.
pub fn records_query(req: &UploadRecordsRequest) -> (q: RecordsQuery)
    ensures
        q.filters@ == request_filters(*req),
        q.order_column == OrderColumn::UpdatedAt,
        q.descending,
        q.page_size == req.page_size,
        q.page == req.page,
{
    RecordsQuery {
        filters: record_filters(req),
        order_column: OrderColumn::UpdatedAt,
        descending: true,
        page_size: req.page_size,
        page: req.page,
    }
}

/// A record meets all the conditions of a request exactly when the request
/// selects it.
pub proof fn lemma_filters_select(req: UploadRecordsRequest, m: Model)
    ensures
        (forall|i: int|
            0 <= i < request_filters(req).len() ==> filter_holds(
                #[trigger] request_filters(req)[i],
                m,
            )) <==> selects(req, m),
{
    let a = filter_for(req.video_id, |v: i32| RecordFilter::VideoId(v));
    let b = filter_for(req.page_id, |v: i32| RecordFilter::PageId(v));
    let c = filter_for(req.youtube_video_id, |v: i32| RecordFilter::YoutubeVideoId(v));
    let d = filter_for(req.status, |v: i32| RecordFilter::Status(v));
    let all = request_filters(req);
    assert(all =~= a + b + c + d);
    if selects(req, m) {
        assert forall|i: int| 0 <= i < all.len() implies filter_holds(#[trigger] all[i], m) by {
            if i < a.len() {
                assert(all[i] == a[i]);
            } else if i < a.len() + b.len() {
                assert(all[i] == b[i - a.len()]);
            } else if i < a.len() + b.len() + c.len() {
                assert(all[i] == c[i - a.len() - b.len()]);
            } else {
                assert(all[i] == d[i - a.len() - b.len() - c.len()]);
            }
        }
    }
    if forall|i: int| 0 <= i < all.len() ==> filter_holds(#[trigger] all[i], m) {
        if req.video_id is Some {
            assert(filter_holds(all[0], m));
        }
        if req.page_id is Some {
            assert(filter_holds(all[a.len() as int], m));
        }
        if req.youtube_video_id is Some {
            assert(filter_holds(all[(a.len() + b.len()) as int], m));
        }
        if req.status is Some {
            assert(filter_holds(all[(a.len() + b.len() + c.len()) as int], m));
        }
    }
}

/// One record as listed.
#[derive(Debug)]
pub struct UploadRecordResponse {
    pub id: i32,
    pub video_id: Option<i32>,
    pub page_id: Option<i32>,
    pub youtube_video_id: Option<i32>,
    pub local_path: String,
    pub remote_path: String,
    pub status: i32,
    pub attempts: i32,
    pub last_error: Option<String>,
    pub uploaded_at: Option<Timestamp>,
    pub created_at: Timestamp,
    pub updated_at: Timestamp,
}

/// Whether `r` shows every column of `m` unchanged.
pub open spec fn shows(r: UploadRecordResponse, m: Model) -> bool {
    &&& r.id == m.id
    &&& r.video_id == m.video_id
    &&& r.page_id == m.page_id
    &&& r.youtube_video_id == m.youtube_video_id
    &&& r.local_path == m.local_path
    &&& r.remote_path == m.remote_path
    &&& r.status == m.status
    &&& r.attempts == m.attempts
    &&& r.last_error == m.last_error
    &&& r.uploaded_at == m.uploaded_at
    &&& r.created_at == m.created_at
    &&& r.updated_at == m.updated_at
}

impl UploadRecordResponse {
    /// The listing of one record: every column as it is.
    pub fn from_model(m: Model) -> (r: UploadRecordResponse)
        ensures
            shows(r, m),
    {
        UploadRecordResponse {
            id: m.id,
            video_id: m.video_id,
            page_id: m.page_id,
            youtube_video_id: m.youtube_video_id,
            local_path: m.local_path,
            remote_path: m.remote_path,
            status: m.status,
            attempts: m.attempts,
            last_error: m.last_error,
            uploaded_at: m.uploaded_at,
            created_at: m.created_at,
            updated_at: m.updated_at,
        }
    }
}

/// The listing of a page of records, in the same order.
pub fn record_responses(records: Vec<Model>) -> (r: Vec<UploadRecordResponse>)
    ensures
        r@.len() == records@.len(),
        forall|i: int| 0 <= i < records@.len() ==> shows(#[trigger] r@[i], records@[i]),
{
    let ghost all = records@;
    let mut out: Vec<UploadRecordResponse> = Vec::new();
    for m in it: records.into_iter()
        invariant
            it.seq() == all,
            out@.len() == it.index(),
            forall|i: int| 0 <= i < out@.len() ==> shows(#[trigger] out@[i], all[i]),
    {
        out.push(UploadRecordResponse::from_model(m));
    }
    out
}

} // verus!
