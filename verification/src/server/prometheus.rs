//! Labels of the server's metrics.
use vstd::prelude::*;

verus! {

/// The HTTP method of a request.
#[allow(non_camel_case_types)]
#[derive(Debug, Clone, Copy, Hash, PartialEq, Eq, Structural)]
pub enum HttpMethod {
    GET,
    POST,
    PUT,
    DELETE,
}

/// Labels of a request counter: method and path.
#[derive(Debug, Clone, Hash, PartialEq, Eq)]
pub struct HttpLabel {
    pub method: HttpMethod,
    pub path: String,
}

/// Label of a per-job-type counter.
#[derive(Debug, Clone, Hash, PartialEq, Eq)]
pub struct JobType {
    pub job_type: String,
}

} // verus!
