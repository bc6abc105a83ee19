use vstd::prelude::*;

verus! {

/// Body of the liveness probe.
pub struct HealthResponse {
    pub status: String,
    pub version: String,
    pub uptime_seconds: u64,
}

/// Body of the readiness probe.
pub struct ReadyResponse {
    pub ready: bool,
}

impl HealthResponse {
    /// A healthy report. `elapsed_seconds` is the time since start, or `None`
    /// where the clock reads earlier than the start, reported as zero.
    pub fn ok(version: String, elapsed_seconds: Option<u64>) -> (r: HealthResponse)
        ensures
            r.status@ == "ok"@,
            r.version == version,
            r.uptime_seconds == match elapsed_seconds {
                Some(s) => s,
                None => 0,
            },
    {
        let uptime_seconds = match elapsed_seconds {
            Some(s) => s,
            None => 0,
        };
        HealthResponse { status: "ok".to_owned(), version, uptime_seconds }
    }
}

impl ReadyResponse {
    pub fn ready() -> (r: ReadyResponse)
        ensures
            r.ready,
    {
        ReadyResponse { ready: true }
    }
}

} // verus!
