//! Liveness and readiness.

use vstd::prelude::*;

verus! {

/// The answer to a health probe.
#[derive(Debug, Clone, Copy)]
pub struct Health {
    pub code: u16,
    pub status: &'static str,
    pub reason: Option<&'static str>,
}

/// A process that answers at all is alive; the database has no part in that.
pub fn live() -> (h: Health)
    ensures
        h.code == 200,
        h.status@ == "ok"@,
        h.reason is None,
{
    Health { code: 200, status: "ok", reason: None }
}

/// A process is ready if it reaches its database.
pub fn ready(database_reachable: bool) -> (h: Health)
    ensures
        database_reachable ==> h.code == 200 && h.status@ == "ok"@ && h.reason is None,
        !database_reachable ==> h.code == 503 && h.status@ == "unavailable"@ && h.reason is Some
            && h.reason->0@ == "database unreachable"@,
{
    if database_reachable {
        Health { code: 200, status: "ok", reason: None }
    } else {
        Health { code: 503, status: "unavailable", reason: Some("database unreachable") }
    }
}

} // verus!
