use job_scheduler::worker::error::WorkerError;
use job_scheduler::worker::handlers::webhook::{prepare_webhook, WebhookMethod};

#[test]
fn missing_url_is_refused() {
    match prepare_webhook(None, Some("POST")) {
        Err(WorkerError::Webhook(m)) => assert_eq!(m, "Invalid url"),
        _ => panic!("expected an invalid url"),
    }
}

#[test]
fn missing_method_means_post() {
    let req = prepare_webhook(Some("http://localhost/hook"), None).unwrap();
    assert_eq!(req.url, "http://localhost/hook");
    assert_eq!(req.method, WebhookMethod::Post);
}

#[test]
fn allowed_methods() {
    assert_eq!(prepare_webhook(Some("u"), Some("POST")).unwrap().method, WebhookMethod::Post);
    assert_eq!(prepare_webhook(Some("u"), Some("PUT")).unwrap().method, WebhookMethod::Put);
    assert_eq!(prepare_webhook(Some("u"), Some("PATCH")).unwrap().method, WebhookMethod::Patch);
}

#[test]
fn other_methods_are_refused() {
    for m in ["GET", "DELETE", "post", ""] {
        match prepare_webhook(Some("u"), Some(m)) {
            Err(WorkerError::Webhook(e)) => assert_eq!(e, "Invalid method"),
            _ => panic!("expected an invalid method"),
        }
    }
}
