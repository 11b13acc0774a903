//! Logic of the worker processes that claim and execute jobs.
pub mod error;
pub mod executor;
pub mod handlers;
pub mod lease;
pub mod main_loop;
pub mod prometheus;
