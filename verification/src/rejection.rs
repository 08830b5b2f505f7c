//! The refusals that a caller can be answered with.
use vstd::prelude::*;

verus! {

/// Why a request was not served.
#[derive(Clone, Copy, Debug, PartialEq, Eq, Structural)]
pub enum Rejection {
    /// The request carries no `Authorization` header.
    MissingAuth,
    /// The `Authorization` header does not carry the expected key.
    BadAuth,
    /// The appointment mode is not one that is offered.
    InvalidMode,
    /// The database could not store what was handed in, or give out what was asked
    /// for.
    DbError,
    /// The request took too long.
    TimedOut,
}

impl Rejection {
    /// The HTTP status of the answer.
    pub open spec fn status_code(self) -> u16 {
        match self {
            Rejection::MissingAuth => 401,
            Rejection::BadAuth => 403,
            Rejection::InvalidMode => 422,
            Rejection::DbError => 500,
            Rejection::TimedOut => 504,
        }
    }

    /// The body of the answer.
    pub open spec fn body(self) -> Seq<char> {
        match self {
            Rejection::MissingAuth => "missing auth"@,
            Rejection::BadAuth => "bad auth"@,
            Rejection::InvalidMode => "invalid mode"@,
            Rejection::DbError => "db error"@,
            Rejection::TimedOut => "request timed out"@,
        }
    }

    /// The HTTP status of the answer.
    pub fn status(&self) -> (code: u16)
        ensures
            code == self.status_code(),
    {
        match self {
            Rejection::MissingAuth => 401,
            Rejection::BadAuth => 403,
            Rejection::InvalidMode => 422,
            Rejection::DbError => 500,
            Rejection::TimedOut => 504,
        }
    }

    /// The body of the answer.
    pub fn message(&self) -> (text: &'static str)
        ensures
            text@ == self.body(),
    {
        match self {
            Rejection::MissingAuth => "missing auth",
            Rejection::BadAuth => "bad auth",
            Rejection::InvalidMode => "invalid mode",
            Rejection::DbError => "db error",
            Rejection::TimedOut => "request timed out",
        }
    }
}

/// Every refusal is a client or server error, and no two share a status.
pub proof fn law_statuses_tell_rejections_apart(a: Rejection, b: Rejection)
    ensures
        400 <= a.status_code() < 600,
        a.status_code() == b.status_code() ==> a == b,
{
}

} // verus!
