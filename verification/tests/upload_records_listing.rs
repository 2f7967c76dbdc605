use bili_sync::upload_record::{Model, Timestamp};
use bili_sync::upload_records::{
    default_page, default_page_size, record_filters, record_responses, records_query, OrderColumn, RecordFilter,
    UploadRecordResponse, UploadRecordsRequest,
};

fn request() -> UploadRecordsRequest {
    UploadRecordsRequest {
        video_id: None,
        page_id: None,
        youtube_video_id: None,
        status: None,
        page: default_page(),
        page_size: default_page_size(),
    }
}

fn model(id: i32) -> Model {
    Model {
        id,
        video_id: Some(3),
        page_id: None,
        youtube_video_id: None,
        local_path: format!("/l/{}", id),
        remote_path: format!("/r/{}", id),
        status: 2,
        attempts: 1,
        last_error: Some("e".to_string()),
        uploaded_at: Some(Timestamp { seconds: 9, nanos: 1 }),
        created_at: Timestamp { seconds: 1, nanos: 0 },
        updated_at: Timestamp { seconds: 2, nanos: 0 },
    }
}

#[test]
fn defaults_are_first_page_of_fifty() {
    assert_eq!(default_page(), 0);
    assert_eq!(default_page_size(), 50);
}

#[test]
fn no_filters_without_fields() {
    assert!(record_filters(&request()).is_empty());
}

#[test]
fn filters_follow_given_fields_in_order() {
    let mut req = request();
    req.status = Some(3);
    req.video_id = Some(10);
    req.youtube_video_id = Some(4);
    let f = record_filters(&req);
    assert_eq!(f.len(), 3);
    assert!(matches!(f[0], RecordFilter::VideoId(10)));
    assert!(matches!(f[1], RecordFilter::YoutubeVideoId(4)));
    assert!(matches!(f[2], RecordFilter::Status(3)));
    req.page_id = Some(8);
    let f = record_filters(&req);
    assert!(matches!(f[1], RecordFilter::PageId(8)));
}

#[test]
fn response_shows_every_column() {
    let r = UploadRecordResponse::from_model(model(5));
    assert_eq!(r.id, 5);
    assert_eq!(r.video_id, Some(3));
    assert_eq!(r.local_path, "/l/5");
    assert_eq!(r.remote_path, "/r/5");
    assert_eq!(r.status, 2);
    assert_eq!(r.attempts, 1);
    assert_eq!(r.last_error, Some("e".to_string()));
    assert_eq!(r.uploaded_at, Some(Timestamp { seconds: 9, nanos: 1 }));
    assert_eq!(r.created_at, Timestamp { seconds: 1, nanos: 0 });
    assert_eq!(r.updated_at, Timestamp { seconds: 2, nanos: 0 });
}

#[test]
fn responses_keep_order() {
    let out = record_responses(vec![model(3), model(1), model(2)]);
    let ids: Vec<i32> = out.iter().map(|r| r.id).collect();
    assert_eq!(ids, vec![3, 1, 2]);
    assert!(record_responses(Vec::new()).is_empty());
}

fn holds(f: &RecordFilter, m: &Model) -> bool {
    match f {
        RecordFilter::VideoId(v) => m.video_id == Some(*v),
        RecordFilter::PageId(v) => m.page_id == Some(*v),
        RecordFilter::YoutubeVideoId(v) => m.youtube_video_id == Some(*v),
        RecordFilter::Status(v) => m.status == *v,
    }
}

#[test]
fn filters_select_records_agreeing_with_the_request() {
    let mut req = request();
    req.video_id = Some(3);
    req.status = Some(2);
    let filters = record_filters(&req);
    let m = model(1);
    assert!(filters.iter().all(|f| holds(f, &m)));
    let mut other = model(2);
    other.status = 3;
    assert!(!filters.iter().all(|f| holds(f, &other)));
    let mut no_video = model(3);
    no_video.video_id = None;
    assert!(!filters.iter().all(|f| holds(f, &no_video)));
}

#[test]
fn query_orders_newest_update_first_and_pages() {
    let mut req = request();
    req.page = 3;
    req.page_size = 20;
    req.page_id = Some(9);
    let q = records_query(&req);
    assert!(matches!(q.order_column, OrderColumn::UpdatedAt));
    assert!(q.descending);
    assert_eq!((q.page, q.page_size), (3, 20));
    assert_eq!(q.filters.len(), 1);
    assert!(matches!(q.filters[0], RecordFilter::PageId(9)));
}
