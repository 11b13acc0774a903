//! The work behind the job types that carry a payload.
pub mod email;
pub mod webhook;
