//! Errors that a worker reports while it executes jobs.
use vstd::prelude::*;
use vstd::std_specs::convert::FromSpecImpl;
use vstd::string::*;

verus! {

/// Whether retrying the job that raised an error can help.
#[derive(Debug, Clone, Copy, PartialEq, Eq, Structural)]
pub enum ErrorStatus {
    Temporary,
    Permanent,
}

/// An error classified as temporary or permanent, with a message and the
/// underlying error that caused it.
#[derive(Debug)]
pub struct WorkerErrorV2<S> {
    pub status: ErrorStatus,
    pub message: String,
    pub source: Option<S>,
}

impl<S> WorkerErrorV2<S> {
    /// An error that retrying cannot fix.
    pub fn permanent(message: &str, source: S) -> (err: Self)
        ensures
            err.status == ErrorStatus::Permanent,
            err.message@ == message@,
            err.source == Some(source),
    {
        WorkerErrorV2 { status: ErrorStatus::Permanent, message: message.to_string(), source: Some(source) }
    }

    /// An error after which the job may be tried again.
    pub fn temporary(message: &str, source: S) -> (err: Self)
        ensures
            err.status == ErrorStatus::Temporary,
            err.message@ == message@,
            err.source == Some(source),
    {
        WorkerErrorV2 { status: ErrorStatus::Temporary, message: message.to_string(), source: Some(source) }
    }

    /// Whether the error is permanent.
    pub fn is_permanent(&self) -> (b: bool)
        ensures
            b == (self.status == ErrorStatus::Permanent),
    {
        match self.status {
            ErrorStatus::Permanent => true,
            ErrorStatus::Temporary => false,
        }
    }
}

/// The failures of the work a job asks for.
#[derive(Debug)]
pub enum WorkerError {
    Database(sqlx::Error),
    Email(String),
    /// The payload of the job cannot be read as the job needs it (a
    /// malformed payload, or an e-mail address that does not parse).
    InvalidPayload(String),
    InvalidJob,
    Webhook(String),
    Request(reqwest::Error),
}

impl WorkerError {
    /// Whether retrying cannot help: a job of an unknown type, a payload that
    /// cannot be read (including an e-mail address that does not parse), or a
    /// webhook request without a usable url or method fails the same way
    /// every time; a failure of the database, the HTTP client or the mail
    /// server may pass.
    pub open spec fn spec_is_permanent(&self) -> bool {
        match self {
            WorkerError::InvalidJob => true,
            WorkerError::InvalidPayload(_) => true,
            WorkerError::Webhook(_) => true,
            _ => false,
        }
    }

    /// The text that describes the error, stored with the job that raised
    /// it.
    pub open spec fn message_spec(&self) -> Seq<char> {
        match self {
            WorkerError::Database(_) => "Database error"@,
            WorkerError::Email(m) => "Email error: "@ + m@,
            WorkerError::InvalidPayload(m) => "Invalid payload: "@ + m@,
            WorkerError::InvalidJob => "Invalid Job error"@,
            WorkerError::Webhook(m) => "Webhook error: "@ + m@,
            WorkerError::Request(_) => "Reqwest error"@,
        }
    }

    /// The text that describes the error (see `message_spec`).
    pub fn message(&self) -> (text: String)
        ensures
            text@ == self.message_spec(),
    {
        match self {
            WorkerError::Database(_) => String::from_str("Database error"),
            WorkerError::Email(m) => String::from_str("Email error: ").concat(m.as_str()),
            WorkerError::InvalidPayload(m) => String::from_str("Invalid payload: ").concat(m.as_str()),
            WorkerError::InvalidJob => String::from_str("Invalid Job error"),
            WorkerError::Webhook(m) => String::from_str("Webhook error: ").concat(m.as_str()),
            WorkerError::Request(_) => String::from_str("Reqwest error"),
        }
    }

    /// Whether retrying the job cannot help (see `spec_is_permanent`).
    pub fn is_permanent(&self) -> (b: bool)
        ensures
            b == self.spec_is_permanent(),
            b <==> (*self is InvalidJob || *self is InvalidPayload || *self is Webhook),
    {
        match self {
            WorkerError::InvalidJob => true,
            WorkerError::InvalidPayload(_) => true,
            WorkerError::Webhook(_) => true,
            _ => false,
        }
    }
}

impl From<sqlx::Error> for WorkerError {
    fn from(err: sqlx::Error) -> (res: Self) {
        WorkerError::Database(err)
    }
}

impl FromSpecImpl<sqlx::Error> for WorkerError {
    open spec fn obeys_from_spec() -> bool {
        true
    }

    open spec fn from_spec(err: sqlx::Error) -> Self {
        WorkerError::Database(err)
    }
}

impl From<reqwest::Error> for WorkerError {
    fn from(err: reqwest::Error) -> (res: Self) {
        WorkerError::Request(err)
    }
}

impl FromSpecImpl<reqwest::Error> for WorkerError {
    open spec fn obeys_from_spec() -> bool {
        true
    }

    open spec fn from_spec(err: reqwest::Error) -> Self {
        WorkerError::Request(err)
    }
}

/// Only a job of an unknown type, a payload that cannot be read, or a
/// webhook request without a usable url or method fails for good; a failure
/// of the database, of the HTTP client (a timeout, a refused connection) or
/// of the mail server is temporary.
pub proof fn lemma_only_unusable_jobs_are_permanent(err: WorkerError)
    ensures
        err.spec_is_permanent() <==> (err is InvalidJob || err is InvalidPayload || err is Webhook),
        err is Database ==> !err.spec_is_permanent(),
        err is Request ==> !err.spec_is_permanent(),
        err is Email ==> !err.spec_is_permanent(),
{
}

} // verus!
