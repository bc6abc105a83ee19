use imgopt::processor::{OutputFormat, ProcessError};
use imgopt::reply::{Outcome, Reply, PROCESSING_DEADLINE_SECS};

#[test]
fn success_carries_bytes_type_and_request_id() {
    let reply = Reply::from_outcome(Outcome::Finished(Ok(vec![1, 2, 3])), OutputFormat::Avif, "abc".to_string());
    assert_eq!(reply.status(), 200);
    assert_eq!(reply.content_type(), Some("image/avif"));
    match reply {
        Reply::Image { format, bytes, request_id } => {
            assert_eq!(format, OutputFormat::Avif);
            assert_eq!(bytes, vec![1, 2, 3]);
            assert_eq!(request_id, "abc");
        }
        Reply::Failure { .. } => panic!("expected an image"),
    }
}

#[test]
fn pipeline_errors_are_unprocessable() {
    for e in [ProcessError::Decode, ProcessError::Encode, ProcessError::SourceTooLarge { width: 1, height: 5000 }] {
        let reply = Reply::from_outcome(Outcome::Finished(Err(e)), OutputFormat::WebP, "x".to_string());
        assert_eq!(reply.status(), 422);
        assert_eq!(reply.content_type(), None);
        assert!(matches!(reply, Reply::Failure { message: "Image processing failed", .. }));
    }
}

#[test]
fn deadline_elapsed_is_timeout() {
    let reply = Reply::from_outcome(Outcome::DeadlineElapsed, OutputFormat::WebP, "x".to_string());
    assert_eq!(reply.status(), 408);
    assert!(matches!(reply, Reply::Failure { message: "Processing timed out", .. }));
    assert_eq!(PROCESSING_DEADLINE_SECS, 30);
}

#[test]
fn worker_fault_is_internal_error() {
    let reply = Reply::from_outcome(Outcome::WorkerFault, OutputFormat::WebP, "x".to_string());
    assert_eq!(reply.status(), 500);
    assert!(matches!(reply, Reply::Failure { message: "Internal error", .. }));
}

#[test]
fn mime_types() {
    assert_eq!(OutputFormat::WebP.mime_type(), "image/webp");
    assert_eq!(OutputFormat::Avif.mime_type(), "image/avif");
}
