//! The endpoints of the service, how they are asked, and what holds of all that
//! ask for the key.
use vstd::prelude::*;
use crate::auth::key_verdict;
use crate::booking::{book_outcome, BookReq, BookResp};
use crate::calls::{end_outcome, log_outcome, recent_outcome, CallLog, CallRow};
use crate::rejection::Rejection;

verus! {

/// How many seconds a request may take before it is answered as timed out.
pub const TIMEOUT_SECONDS: u64 = 10;

/// The HTTP method of a request.
#[derive(Clone, Copy, Debug, PartialEq, Eq, Structural)]
pub enum Method {
    /// To read.
    Get,
    /// To hand something in.
    Post,
}

/// What the service can be asked.
#[derive(Clone, Copy, Debug, PartialEq, Eq, Structural)]
pub enum Endpoint {
    /// Whether the service runs.
    Healthz,
    /// Whether the service runs, under another name.
    Health,
    /// Whether the service can reach its database.
    Readyz,
    /// To book an appointment.
    BookAppointment,
    /// To keep a record of a call.
    LogCall,
    /// To give out the newest records of calls.
    RecentCalls,
    /// To take note that a call has ended.
    CallEnded,
    /// To answer a question.
    Kb,
}

impl Endpoint {
    /// The path of the endpoint.
    pub open spec fn route(self) -> Seq<char> {
        match self {
            Endpoint::Healthz => "/healthz"@,
            Endpoint::Health => "/health"@,
            Endpoint::Readyz => "/readyz"@,
            Endpoint::BookAppointment => "/book_appointment"@,
            Endpoint::LogCall => "/log_call"@,
            Endpoint::RecentCalls => "/calls/recent"@,
            Endpoint::CallEnded => "/webhooks/call/ended"@,
            Endpoint::Kb => "/kb"@,
        }
    }

    /// The path of the endpoint.
    pub fn path(&self) -> (path: &'static str)
        ensures
            path@ == self.route(),
    {
        match self {
            Endpoint::Healthz => "/healthz",
            Endpoint::Health => "/health",
            Endpoint::Readyz => "/readyz",
            Endpoint::BookAppointment => "/book_appointment",
            Endpoint::LogCall => "/log_call",
            Endpoint::RecentCalls => "/calls/recent",
            Endpoint::CallEnded => "/webhooks/call/ended",
            Endpoint::Kb => "/kb",
        }
    }

    /// What is handed in is posted, and all else is got.
    pub open spec fn verb(self) -> Method {
        match self {
            Endpoint::BookAppointment => Method::Post,
            Endpoint::LogCall => Method::Post,
            Endpoint::CallEnded => Method::Post,
            _ => Method::Get,
        }
    }

    /// The method of the endpoint.
    pub fn method(&self) -> (method: Method)
        ensures
            method == self.verb(),
    {
        match self {
            Endpoint::Healthz => Method::Get,
            Endpoint::Health => Method::Get,
            Endpoint::Readyz => Method::Get,
            Endpoint::BookAppointment => Method::Post,
            Endpoint::LogCall => Method::Post,
            Endpoint::RecentCalls => Method::Get,
            Endpoint::CallEnded => Method::Post,
            Endpoint::Kb => Method::Get,
        }
    }

    /// The endpoint asks for the key. The others answer without looking at the
    /// headers of a request.
    pub open spec fn asks_for_key(self) -> bool {
        match self {
            Endpoint::Healthz => false,
            Endpoint::Health => false,
            Endpoint::Readyz => false,
            Endpoint::BookAppointment => true,
            Endpoint::LogCall => true,
            Endpoint::RecentCalls => true,
            Endpoint::CallEnded => true,
            Endpoint::Kb => false,
        }
    }

    /// The refusal that the endpoint owes to a request with that `Authorization`
    /// value, if any.
    pub open spec fn refusal(self, value: Option<Seq<u8>>, api_key: Seq<char>) -> Option<
        Rejection,
    > {
        match key_verdict(value, api_key) {
            Err(rejection) if self.asks_for_key() => Some(rejection),
            _ => None,
        }
    }
}

/// Every endpoint to which something is posted asks for the key, and of those
/// that are got only the one that gives out records of calls does.
pub proof fn law_who_asks_for_the_key(endpoint: Endpoint)
    ensures
        endpoint.verb() == Method::Post ==> endpoint.asks_for_key(),
        endpoint.verb() == Method::Get ==> (endpoint.asks_for_key() <==> endpoint
            == Endpoint::RecentCalls),
{
}

/// Every path starts with a slash, and no two endpoints share one.
pub proof fn law_paths_tell_endpoints_apart(a: Endpoint, b: Endpoint)
    ensures
        a.route().len() > 0 && a.route()[0] == '/',
        a.route() == b.route() ==> a == b,
{
    reveal_strlit("/healthz");
    reveal_strlit("/health");
    reveal_strlit("/readyz");
    reveal_strlit("/book_appointment");
    reveal_strlit("/log_call");
    reveal_strlit("/calls/recent");
    reveal_strlit("/webhooks/call/ended");
    reveal_strlit("/kb");
    if a.route() == b.route() {
        assert(a.route().len() == b.route().len());
        assert(a.route()[1] == b.route()[1]);
    }
}

/// A refused key is refused in the same way by every endpoint that asks for
/// one, whatever else the request says, and no row is laid out for it.
pub proof fn law_refused_key_is_refused_everywhere(
    value: Option<Seq<u8>>,
    api_key: Seq<char>,
    req: BookReq,
    booked: Result<BookResp, Rejection>,
    log: CallLog,
    logged: Result<CallRow, Rejection>,
)
    requires
        key_verdict(value, api_key) is Err,
        book_outcome(value, api_key, req, booked),
        log_outcome(value, api_key, log, logged),
    ensures
        ({
            let refused = |endpoint: Endpoint| endpoint.refusal(value, api_key);
            &&& booked matches Err(rejection) && refused(Endpoint::BookAppointment) == Some(
                rejection,
            )
            &&& logged matches Err(rejection) && refused(Endpoint::LogCall) == Some(rejection)
            &&& recent_outcome(value, api_key) matches Err(rejection) && refused(
                Endpoint::RecentCalls,
            ) == Some(rejection)
            &&& end_outcome(value, api_key) matches Err(rejection) && refused(Endpoint::CallEnded)
                == Some(rejection)
        }),
{
}

/// A request without an `Authorization` header is refused with status 401, and
/// one with a header that does not carry the key with status 403.
pub proof fn law_refusal_statuses(value: Option<Seq<u8>>, api_key: Seq<char>)
    ensures
        value is None ==> {
            &&& key_verdict(value, api_key) matches Err(rejection)
            &&& rejection.status_code() == 401
        },
        value is Some && key_verdict(value, api_key) is Err ==> {
            &&& key_verdict(value, api_key) matches Err(rejection)
            &&& rejection.status_code() == 403
        },
{
}

} // verus!
