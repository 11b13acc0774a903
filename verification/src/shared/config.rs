//! The settings that the processes read from their configuration file.
use vstd::prelude::*;

verus! {

/// Database connection settings.
#[derive(Debug)]
pub struct Database {
    pub url: String,
    pub pool_size: u8,
}

/// HTTP server settings, with the periods (in seconds) of its background
/// tasks.
#[derive(Debug)]
pub struct Server {
    pub host: String,
    pub port: u16,
    pub lease_recovery: u8,
    pub cleanup: u8,
}

/// Worker settings: heartbeat period and job lease, in seconds.
#[derive(Debug, Clone, Copy)]
pub struct Worker {
    pub heartbeat: u8,
    pub lease_duration: u8,
}

/// The SMTP server that e-mail jobs go through.
#[derive(Debug)]
pub struct MailServer {
    pub host: String,
    pub port: u16,
}

/// The whole configuration.
#[derive(Debug)]
pub struct AppConfig {
    pub database: Database,
    pub server: Server,
    pub worker: Worker,
    pub mail_server: MailServer,
}

} // verus!
