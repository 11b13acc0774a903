//! Rows that the server reads from the database.
pub mod models;
