//! Logic of the HTTP server that accepts, schedules and reports on jobs.
pub mod background;
pub mod db;
pub mod error;
pub mod handlers;
pub mod helper;
pub mod prometheus;
pub mod utils;
