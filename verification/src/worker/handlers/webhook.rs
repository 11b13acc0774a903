//! Checking the payload of a `send_webhook` job.
use vstd::prelude::*;

use crate::text::same_text;
use crate::worker::error::WorkerError;

verus! {

/// The HTTP methods a webhook may use.
#[derive(Debug, Clone, Copy, PartialEq, Eq, Structural)]
pub enum WebhookMethod {
    Post,
    Put,
    Patch,
}

/// A webhook request ready to be sent: its url and method.
#[derive(Debug)]
pub struct WebhookRequest {
    pub url: String,
    pub method: WebhookMethod,
}

/// The method named by the payload's `method` text, if it is one a webhook
/// may use.
pub open spec fn method_spec(method: Seq<char>) -> Option<WebhookMethod> {
    if method == "POST"@ {
        Some(WebhookMethod::Post)
    } else if method == "PUT"@ {
        Some(WebhookMethod::Put)
    } else if method == "PATCH"@ {
        Some(WebhookMethod::Patch)
    } else {
        None
    }
}

/// Checks the `url` and `method` texts of a webhook payload.
///
/// Without a url the request is refused with `Webhook("Invalid url")`. A
/// missing method means `POST`; a method other than `POST`, `PUT` or `PATCH`
/// is refused with `Webhook("Invalid method")`.
pub fn prepare_webhook(url: Option<&str>, method: Option<&str>) -> (r: Result<
    WebhookRequest,
    WorkerError,
>)
    ensures
        url is None ==> (r matches Err(WorkerError::Webhook(m)) && m@ == "Invalid url"@),
        url matches Some(u) ==> {
            let m = match method {
                Some(m) => m@,
                None => "POST"@,
            };
            match method_spec(m) {
                Some(verb) => r matches Ok(req) && req.url@ == u@ && req.method == verb,
                None => r matches Err(WorkerError::Webhook(e)) && e@ == "Invalid method"@,
            }
        },
{
    let url = match url {
        Some(u) => u,
        None => {
            return Err(WorkerError::Webhook("Invalid url".to_string()));
        },
    };
    let method = match method {
        Some(m) => m,
        None => "POST",
    };
    let verb = if same_text(method, "POST") {
        WebhookMethod::Post
    } else if same_text(method, "PUT") {
        WebhookMethod::Put
    } else if same_text(method, "PATCH") {
        WebhookMethod::Patch
    } else {
        return Err(WorkerError::Webhook("Invalid method".to_string()));
    };
    Ok(WebhookRequest { url: url.to_string(), method: verb })
}

} // verus!
