use vstd::prelude::*;
use vstd::string::StringExecFns;

verus! {

/// The three kinds of failure that the service layer reports.
#[derive(Debug)]
pub enum TweetError {
    /// The store or another collaborator failed.
    InternalServerError,
    /// The request was malformed or named a record that is not there.
    BadRequest(String),
    /// The caller is not authenticated, or the credentials did not verify.
    Unauthorized(String),
}

pub open spec fn internal_error_text() -> Seq<char> {
    "Internal Server Error, Please try later"@
}

impl TweetError {
    /// The text shown to a caller for this error.
    pub fn message(&self) -> (r: String)
        ensures
            r@ == match self {
                TweetError::InternalServerError => internal_error_text(),
                TweetError::BadRequest(m) => "BadRequest: "@ + m@,
                TweetError::Unauthorized(m) => "Unauthorized: "@ + m@,
            },
    {
        match self {
            TweetError::InternalServerError => String::from_str("Internal Server Error, Please try later"),
            TweetError::BadRequest(m) => String::from_str("BadRequest: ").concat(m.as_str()),
            TweetError::Unauthorized(m) => String::from_str("Unauthorized: ").concat(m.as_str()),
        }
    }
}

} // verus!
