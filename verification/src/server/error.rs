//! Errors that the server answers requests with.
use vstd::prelude::*;
use vstd::std_specs::convert::FromSpecImpl;

verus! {

/// An error of a request or of a background task.
#[derive(Debug)]
pub enum ServerError {
    NotFound(String),
    BadRequest(String),
    Internal(String),
    Database(sqlx::Error),
}

impl ServerError {
    /// The HTTP status that answers the error.
    pub open spec fn status_spec(&self) -> u16 {
        match self {
            ServerError::NotFound(_) => 404,
            ServerError::BadRequest(_) => 400,
            ServerError::Internal(_) => 500,
            ServerError::Database(_) => 500,
        }
    }

    /// The HTTP status that answers the error: 404 for a missing resource,
    /// 400 for a bad request, 500 otherwise.
    pub fn status_code(&self) -> (code: u16)
        ensures
            code == self.status_spec(),
    {
        match self {
            ServerError::NotFound(_) => 404,
            ServerError::BadRequest(_) => 400,
            ServerError::Internal(_) => 500,
            ServerError::Database(_) => 500,
        }
    }
}

impl From<sqlx::Error> for ServerError {
    fn from(err: sqlx::Error) -> (res: Self) {
        ServerError::Database(err)
    }
}

impl FromSpecImpl<sqlx::Error> for ServerError {
    open spec fn obeys_from_spec() -> bool {
        true
    }

    open spec fn from_spec(err: sqlx::Error) -> Self {
        ServerError::Database(err)
    }
}

} // verus!
