use vstd::prelude::*;

verus! {

/// Errors that a request to the service can end in.
#[derive(Debug)]
pub enum TellonymError {
    ResourceNotFound,
    InvalidJWT,
    NoRefreshCookie,
    InvalidLogin,
    BadHeaders,
    ConstraintError(String),
    ServerError,
    DatabaseError(String),
}

impl TellonymError {
    /// The HTTP status code that the error is answered with.
    pub open spec fn spec_status_code(&self) -> u16 {
        match self {
            TellonymError::ResourceNotFound => 404,
            TellonymError::InvalidJWT => 401,
            TellonymError::NoRefreshCookie => 401,
            TellonymError::InvalidLogin => 401,
            TellonymError::BadHeaders => 400,
            TellonymError::ConstraintError(_) => 400,
            TellonymError::ServerError => 500,
            TellonymError::DatabaseError(_) => 500,
        }
    }

    /// The HTTP status code that the error is answered with.
    pub fn status_code(&self) -> (code: u16)
        ensures
            code == self.spec_status_code(),
    {
        match self {
            TellonymError::ResourceNotFound => 404,
            TellonymError::InvalidJWT => 401,
            TellonymError::NoRefreshCookie => 401,
            TellonymError::InvalidLogin => 401,
            TellonymError::BadHeaders => 400,
            TellonymError::ConstraintError(_) => 400,
            TellonymError::ServerError => 500,
            TellonymError::DatabaseError(_) => 500,
        }
    }
}

} // verus!
