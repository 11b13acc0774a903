//! Labels of the worker's metrics.
use vstd::prelude::*;

verus! {

/// Label of a per-job-type counter.
#[derive(Debug, Clone, Hash, PartialEq, Eq)]
pub struct JobType {
    pub job_type: String,
}

} // verus!
