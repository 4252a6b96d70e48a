use frakt::backend::reqwest::background::{
    failed_record, range_header, resume_status, resumed_total, session_id, state_file_name, state_record, status_display,
    ResumeStatus, RetryPolicy,
};
use frakt::client::download::TransferProgress;
use frakt::error::Error;

#[test]
fn session_and_state_names() {
    assert_eq!(session_id("unix", 42, 1700000000), "frakt-unix-42-1700000000");
    assert_eq!(state_file_name("frakt-unix-42-1"), "frakt-unix-42-1.state");
    assert_eq!(state_record("downloading", 10, 5), "status:downloading\nbytes_downloaded:10\nlast_update:5\n");
    assert_eq!(failed_record("HTTP error: 404 Not Found", 9), "status:failed\nerror:HTTP error: 404 Not Found\nlast_update:9\n");
}

#[test]
fn resume_requests_and_statuses() {
    assert_eq!(range_header(0), None);
    assert_eq!(range_header(1024).as_deref(), Some("bytes=1024-"));
    assert!(matches!(resume_status(200, 0), ResumeStatus::Proceed));
    assert!(matches!(resume_status(206, 10), ResumeStatus::Proceed));
    assert!(matches!(resume_status(416, 10), ResumeStatus::AlreadyComplete(10)));
    assert!(matches!(resume_status(416, 0), ResumeStatus::Failed(Error::Internal(m)) if m == "HTTP error: 416 Range Not Satisfiable"));
    assert!(matches!(resume_status(404, 0), ResumeStatus::Failed(Error::Internal(m)) if m == "HTTP error: 404 Not Found"));
    assert_eq!(status_display(599), "599 <unknown status code>");
    assert_eq!(status_display(200), http::StatusCode::OK.to_string());
    assert_eq!(resumed_total(Some(5), 10), Some(15));
    assert_eq!(resumed_total(None, 10), None);
}

#[test]
fn retries_back_off() {
    let mut p = RetryPolicy::new();
    assert_eq!(p.on_failure(), Some(2));
    assert_eq!(p.on_failure(), Some(4));
    assert_eq!(p.on_failure(), Some(8));
    assert_eq!(p.on_failure(), Some(16));
    assert_eq!(p.on_failure(), None);
}

#[test]
fn download_progress_counts() {
    let mut p = TransferProgress::new(Some(10));
    assert_eq!(p.on_chunk(4), (4, Some(10)));
    assert_eq!(p.on_chunk(6), (10, Some(10)));
    let mut q = TransferProgress::new(None);
    assert_eq!(q.on_chunk(0), (0, None));
}
