//! Logic of the minimal API server.
pub mod error;
