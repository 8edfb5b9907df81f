//! Fatal conditions that end a run, and the classification of API
//! status codes into them.

use vstd::prelude::*;

verus! {

/// Every way a run can end other than full success. All of them are
/// terminal: nothing is retried except the single designed fallback
/// in the archive fetcher.
#[derive(Clone, Copy, Debug, PartialEq, Eq, Structural)]
pub enum FatalError {
    /// The API key is invalid (status 401).
    Auth,
    /// The API key has insufficient privileges (status 403).
    Permission,
    /// Resource not found (status 404).
    NotFound,
    /// The rate limit has been exceeded (status 429).
    RateLimit,
    /// Internal server error (status 500).
    Server,
    /// The poll loop reached its configured bound without completion.
    Timeout,
    /// A response did not carry the field the step needed.
    Parse,
    /// A request could not be sent or its response not read.
    Transport,
    /// The short redirect body did not match the known error marker.
    UnrecoverableArchive,
    /// The archive could not be written or moved.
    Io,
}

/// The classification a response status receives: the five known
/// codes map to their fatal condition, everything else passes.
pub open spec fn classify_status(status: u64) -> Result<(), FatalError> {
    if status == 401 {
        Err(FatalError::Auth)
    } else if status == 403 {
        Err(FatalError::Permission)
    } else if status == 404 {
        Err(FatalError::NotFound)
    } else if status == 429 {
        Err(FatalError::RateLimit)
    } else if status == 500 {
        Err(FatalError::Server)
    } else {
        Ok(())
    }
}

/// Hard gate run after every API call: a recognized error status
/// aborts the run with its classified cause; any other status is
/// treated as non-error and passed through.
pub fn validate_response(status: u64) -> (r: Result<(), FatalError>)
    ensures
        r == classify_status(status),
        r is Err <==> (status == 401 || status == 403 || status == 404 || status == 429
            || status == 500),
{
    if status == 401 {
        Err(FatalError::Auth)
    } else if status == 403 {
        Err(FatalError::Permission)
    } else if status == 404 {
        Err(FatalError::NotFound)
    } else if status == 429 {
        Err(FatalError::RateLimit)
    } else if status == 500 {
        Err(FatalError::Server)
    } else {
        Ok(())
    }
}

impl FatalError {
    /// The user-facing description of the condition.
    pub fn message(&self) -> (r: &'static str)
        ensures
            *self == FatalError::Auth ==> r@ == "The API key is invalid"@,
            *self == FatalError::Permission ==> r@
                == "The API key specified has insufficient privileges"@,
            *self == FatalError::NotFound ==> r@ == "Resource not found"@,
            *self == FatalError::RateLimit ==> r@ == "The rate limit has been exceeded"@,
            *self == FatalError::Server ==> r@ == "Internal server error"@,
            *self == FatalError::Timeout ==> r@ == "Timeout exceeded"@,
            *self == FatalError::Parse ==> r@ == "Response was missing an expected field"@,
            *self == FatalError::Transport ==> r@ == "Request could not be completed"@,
            *self == FatalError::UnrecoverableArchive ==> r@ == "Another error occured"@,
            *self == FatalError::Io ==> r@ == "The archive could not be stored"@,
    {
        match self {
            FatalError::Auth => "The API key is invalid",
            FatalError::Permission => "The API key specified has insufficient privileges",
            FatalError::NotFound => "Resource not found",
            FatalError::RateLimit => "The rate limit has been exceeded",
            FatalError::Server => "Internal server error",
            FatalError::Timeout => "Timeout exceeded",
            FatalError::Parse => "Response was missing an expected field",
            FatalError::Transport => "Request could not be completed",
            FatalError::UnrecoverableArchive => "Another error occured",
            FatalError::Io => "The archive could not be stored",
        }
    }
}

} // verus!
