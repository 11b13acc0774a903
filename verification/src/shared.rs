//! Types shared by the server and the workers.
pub mod config;
pub mod models;
