//! The readiness route.
use vstd::prelude::*;

use crate::text::owned;

verus! {

/// The answer to a readiness request.
#[derive(Debug, Clone)]
pub struct ReadyResponse {
    pub status: String,
    pub db: String,
    pub engine: String,
}

/// Readiness: the server and its database are `ok`; the engine is `unknown`.
pub fn ready_check() -> (r: ReadyResponse)
    ensures
        r.status@ == "ok"@,
        r.db@ == "ok"@,
        r.engine@ == "unknown"@,
{
    ReadyResponse { status: owned("ok"), db: owned("ok"), engine: owned("unknown") }
}

} // verus!
