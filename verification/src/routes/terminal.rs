//! The terminal route: its defaults, and its refusal while terminals are unavailable.
use vstd::prelude::*;

use crate::routes::auth::ErrorReply;
use crate::text::owned;

verus! {

/// The terminal width when the request gives none.
pub fn default_cols() -> (n: u16)
    ensures
        n == 80,
{
    80
}

/// The terminal height when the request gives none.
pub fn default_rows() -> (n: u16)
    ensures
        n == 24,
{
    24
}

/// The answer to a terminal request: a bad request, since terminals are not
/// available.
pub fn terminal_ws() -> (r: ErrorReply)
    ensures
        r.status == 400,
        r.error@ == "Terminal functionality is not available"@,
{
    ErrorReply { status: 400, error: owned("Terminal functionality is not available") }
}

} // verus!
