//! The health report: a constant status and version around an uptime
//! reading supplied by the process host.

use vstd::prelude::*;
use vstd::string::StringExecFns;

verus! {

/// The health report returned for every probe.
#[derive(Debug, Clone)]
pub struct HealthResponse {
    pub status: String,
    pub uptime_secs: u64,
    pub version: String,
}

/// Builds the health report for the given uptime reading: the status is
/// always "ok", the uptime is echoed unchanged, and the version is the
/// static build version.
pub fn health(uptime_secs: u64) -> (r: HealthResponse)
    ensures
        r.status@ == "ok"@,
        r.uptime_secs == uptime_secs,
        r.version@ == "0.1.0"@,
{
    HealthResponse {
        status: String::from_str("ok"),
        uptime_secs,
        version: String::from_str("0.1.0"),
    }
}

/// Law: the report echoes the clock, so as long as successive uptime
/// readings never decrease, successive reports never decrease either.
pub proof fn lemma_uptime_monotone(r1: HealthResponse, r2: HealthResponse, u1: u64, u2: u64)
    requires
        u1 <= u2,
        r1.uptime_secs == u1,
        r2.uptime_secs == u2,
    ensures
        r1.uptime_secs <= r2.uptime_secs,
{
}

} // verus!
