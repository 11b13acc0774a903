use job_scheduler::worker::error::{ErrorStatus, WorkerError, WorkerErrorV2};

#[test]
fn permanent_error_keeps_message_and_source() {
    let err = WorkerErrorV2::permanent("Failed to load worker config", "missing file");
    assert_eq!(err.status, ErrorStatus::Permanent);
    assert_eq!(err.message, "Failed to load worker config");
    assert_eq!(err.source, Some("missing file"));
    assert!(err.is_permanent());
}

#[test]
fn temporary_error_keeps_message_and_source() {
    let err = WorkerErrorV2::temporary("Failed to claim a job", 42u8);
    assert_eq!(err.status, ErrorStatus::Temporary);
    assert_eq!(err.message, "Failed to claim a job");
    assert_eq!(err.source, Some(42u8));
    assert!(!err.is_permanent());
}

#[test]
fn worker_error_classification() {
    assert!(WorkerError::InvalidJob.is_permanent());
    assert!(WorkerError::Webhook("Invalid method".to_string()).is_permanent());
    assert!(WorkerError::InvalidPayload("bad address".to_string()).is_permanent());
    assert!(!WorkerError::Email("x".to_string()).is_permanent());
    assert!(!WorkerError::Database(sqlx::Error::RowNotFound).is_permanent());
}

#[test]
fn database_error_converts() {
    let err: WorkerError = sqlx::Error::RowNotFound.into();
    assert!(matches!(err, WorkerError::Database(sqlx::Error::RowNotFound)));
}

#[test]
fn worker_error_messages() {
    assert_eq!(WorkerError::Database(sqlx::Error::RowNotFound).message(), "Database error");
    assert_eq!(WorkerError::Email("bad address".to_string()).message(), "Email error: bad address");
    assert_eq!(WorkerError::InvalidJob.message(), "Invalid Job error");
    assert_eq!(WorkerError::InvalidPayload("x".to_string()).message(), "Invalid payload: x");
    assert_eq!(WorkerError::Webhook("Invalid url".to_string()).message(), "Webhook error: Invalid url");
}
