//! The probes that ask whether the service is up.
use vstd::prelude::*;

verus! {

/// The answer to whether the service runs.
pub fn healthz() -> (body: &'static str)
    ensures
        body@ == "ok"@,
{
    "ok"
}

/// The status and body of the answer to whether the service can do its work,
/// once it is known whether the database replied.
pub fn readyz(db_replied: bool) -> (answer: (u16, &'static str))
    ensures
        answer.0 == (if db_replied { 200u16 } else { 503u16 }),
        answer.1@ == if db_replied { "ready"@ } else { "db down"@ },
{
    if db_replied {
        (200, "ready")
    } else {
        (503, "db down")
    }
}

/// The probes tell the two apart: one says that the service runs, and the other
/// that it can do its work exactly where the database replied.
pub proof fn law_ready_exactly_where_the_database_replied(
    db_replied: bool,
    answer: (u16, &'static str),
    running: &'static str,
)
    requires
        call_ensures(readyz, (db_replied,), answer),
        call_ensures(healthz, (), running),
    ensures
        answer.0 == 200 <==> db_replied,
        answer.0 == 503 <==> !db_replied,
        answer.1@ == "ready"@ <==> db_replied,
        answer.1@ == "db down"@ <==> !db_replied,
        running@ == seq!['o', 'k'],
{
    reveal_strlit("ready");
    reveal_strlit("db down");
    reveal_strlit("ok");
    assert("ready"@.len() != "db down"@.len());
    assert(running@ =~= seq!['o', 'k']);
}

} // verus!
