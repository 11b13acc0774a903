//! Errors of the minimal API server and how they are answered.
use vstd::prelude::*;
use vstd::std_specs::convert::FromSpecImpl;

verus! {

/// An error of a request.
#[derive(Debug)]
pub enum ServerError {
    DatabaseError(sqlx::Error),
}

/// The text sent back for a database error, which hides its details.
pub open spec fn database_error_message() -> Seq<char> {
    "Something went wrong"@
}

impl ServerError {
    /// The HTTP status and the error text of the answer: a database error is
    /// answered `500` with `database_error_message()`.
    pub fn response_parts(&self) -> (parts: (u16, String))
        ensures
            parts.0 == 500,
            parts.1@ == database_error_message(),
    {
        match self {
            ServerError::DatabaseError(_) => (500, "Something went wrong".to_string()),
        }
    }
}

impl From<sqlx::Error> for ServerError {
    fn from(err: sqlx::Error) -> (res: Self) {
        ServerError::DatabaseError(err)
    }
}

impl FromSpecImpl<sqlx::Error> for ServerError {
    open spec fn obeys_from_spec() -> bool {
        true
    }

    open spec fn from_spec(err: sqlx::Error) -> Self {
        ServerError::DatabaseError(err)
    }
}

} // verus!
