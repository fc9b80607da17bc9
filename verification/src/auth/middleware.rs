//! Reading the session token from a request's `Cookie` header, and the decisions of
//! the authentication middleware.
use vstd::prelude::*;

use crate::auth::models::User;
use crate::text::{
    is_ws, lemma_split_prefix_piece, lemma_split_without_sep, lemma_trim_drop_ws, lemma_trim_id,
    chars_of, has_prefix, opt_view, owned, split_chars, split_on, starts_with, string_of,
    trim, trim_chars, views,
};

verus! {

/// The name of the session cookie followed by `=`.
pub open spec fn session_prefix() -> Seq<char> {
    "vt_session="@
}

/// The session token that one `;`-separated piece of a `Cookie` header carries: the
/// piece, trimmed, must be `vt_session=` followed by a non-empty value.
pub open spec fn cookie_value(piece: Seq<char>) -> Option<Seq<char>> {
    let t = trim(piece);
    if has_prefix(t, session_prefix()) && t.len() > session_prefix().len() {
        Some(t.skip(session_prefix().len() as int))
    } else {
        None
    }
}

/// The value of the first piece that carries a session token.
pub open spec fn first_cookie_value(pieces: Seq<Seq<char>>) -> Option<Seq<char>>
    decreases pieces.len(),
{
    if pieces.len() == 0 {
        None
    } else {
        match cookie_value(pieces[0]) {
            Some(v) => Some(v),
            None => first_cookie_value(pieces.drop_first()),
        }
    }
}

/// The session token of a `Cookie` header, if the header is present and carries one.
pub open spec fn session_cookie_of(header: Option<Seq<char>>) -> Option<Seq<char>> {
    match header {
        None => None,
        Some(h) => first_cookie_value(split_on(h, ';')),
    }
}

/// Cookies before the session cookie are passed over: a first piece that carries no
/// session token leaves the token to the rest of the header.
pub proof fn lemma_other_cookies_are_skipped(a: Seq<char>, rest: Seq<char>)
    requires
        forall|j: int| 0 <= j < a.len() ==> #[trigger] a[j] != ';',
        cookie_value(a) is None,
    ensures
        session_cookie_of(Some(a.push(';') + rest)) == session_cookie_of(Some(rest)),
{
    lemma_split_prefix_piece(a, ';', rest);
    let ps = split_on(a.push(';') + rest, ';');
    assert(ps[0] == a);
    assert(ps.drop_first() =~= split_on(rest, ';'));
}

/// The session cookie is found however it is spaced after the `;` before it: the
/// piece ` vt_session=<token>` gives the token, for a token that holds no `;` and does
/// not end in whitespace; and a `vt_session=` with nothing after it gives none.
pub proof fn lemma_session_cookie_piece(token: Seq<char>)
    requires
        token.len() > 0,
        forall|j: int| 0 <= j < token.len() ==> #[trigger] token[j] != ';',
        !is_ws(token.last()),
    ensures
        session_cookie_of(Some(" vt_session="@ + token)) == Some(token),
        cookie_value("vt_session="@) is None,
{
    reveal_strlit(" vt_session=");
    reveal_strlit("vt_session=");
    let x = session_prefix() + token;
    let h = " vt_session="@ + token;
    assert(h =~= seq![' '] + x);
    assert(h.drop_first() =~= x);
    lemma_trim_drop_ws(h);
    assert(x[0] == 'v');
    assert(x.last() == token.last());
    lemma_trim_id(x);
    assert forall|j: int| 0 <= j < h.len() implies #[trigger] h[j] != ';' by {
        if j >= 12 {
            assert(h[j] == token[j - 12]);
        }
    }
    lemma_split_without_sep(h, ';');
    assert(x.take(session_prefix().len() as int) =~= session_prefix());
    assert(x.skip(session_prefix().len() as int) =~= token);
    assert(cookie_value(h) == Some(token));
    assert(split_on(h, ';').drop_first().len() == 0);
    lemma_trim_id("vt_session="@);
}

/// The text view of an optional string slice.
pub open spec fn opt_str_view(s: Option<&str>) -> Option<Seq<char>> {
    match s {
        Some(v) => Some(v@),
        None => None,
    }
}

/// The session token of one piece of a `Cookie` header.
fn cookie_value_exec(piece: &[char]) -> (res: Option<Vec<char>>)
    ensures
        match res {
            Some(v) => cookie_value(piece@) == Some(v@),
            None => cookie_value(piece@) is None,
        },
{
    let t = trim_chars(piece);
    let prefix = chars_of("vt_session=");
    if starts_with(t.as_slice(), prefix.as_slice()) && t.len() > prefix.len() {
        let mut v: Vec<char> = Vec::new();
        crate::text::push_range(&mut v, t.as_slice(), prefix.len(), t.len());
        assert(v@ =~= t@.skip(prefix@.len() as int));
        Some(v)
    } else {
        None
    }
}

/// Reads the session token from the `Cookie` header `cookie_header` (absent when the
/// request has none): the first `;`-separated piece that is, once trimmed,
/// `vt_session=` followed by a non-empty value.
pub fn extract_session_cookie(cookie_header: Option<&str>) -> (res: Option<String>)
    ensures
        opt_view(res) == session_cookie_of(opt_str_view(cookie_header)),
{
    let header = match cookie_header {
        Some(h) => h,
        None => return None,
    };
    let cs = chars_of(header);
    let pieces = split_chars(cs.as_slice(), ';');
    let ghost ps = split_on(header@, ';');
    let n = pieces.len();
    let mut i: usize = 0;
    assert(ps.skip(0) =~= ps);
    while i < n
        invariant
            n == pieces@.len(),
            views(pieces@) == ps,
            ps == split_on(header@, ';'),
            opt_str_view(cookie_header) == Some(header@),
            i <= n,
            first_cookie_value(ps.skip(i as int)) == first_cookie_value(ps),
        decreases n - i,
    {
        assert(ps.skip(i as int)[0] == pieces@[i as int]@);
        assert(ps.skip(i as int).drop_first() =~= ps.skip(i + 1));
        match cookie_value_exec(pieces[i].as_slice()) {
            Some(v) => {
                assert(first_cookie_value(ps.skip(i as int)) == Some(v@));
                let s = string_of(v.as_slice());
                assert(opt_view(Some(s)) == Some(v@));
                return Some(s);
            },
            None => {},
        }
        i = i + 1;
    }
    assert(ps.skip(n as int).len() == 0);
    None
}

/// Reads the session token from the `Cookie` header of a request's headers, the same
/// way as [`extract_session_cookie`].
pub fn extract_session_from_headers(cookie_header: Option<&str>) -> (res: Option<String>)
    ensures
        opt_view(res) == session_cookie_of(opt_str_view(cookie_header)),
{
    extract_session_cookie(cookie_header)
}

/// What the authentication middleware does with a request.
#[derive(Debug, Clone)]
pub enum AuthGate {
    /// Let the request through as it is.
    Pass,
    /// Check the session token, then let the request through with its user, or refuse it.
    CheckToken(String),
    /// Answer with this status and text.
    Refuse(u16, String),
}

/// The first decision of the middleware that requires authentication: when
/// authentication is not required every request passes; otherwise a request without a
/// session token is refused with 401.
pub fn require_auth_gate(auth_required: bool, token: Option<String>) -> (g: AuthGate)
    ensures
        !auth_required ==> g is Pass,
        auth_required && token is None ==> (g matches AuthGate::Refuse(code, text) && code == 401
            && text@ == "Authentication required"@),
        auth_required && token is Some ==> (g matches AuthGate::CheckToken(t) && t == token->0),
{
    if !auth_required {
        return AuthGate::Pass;
    }
    match token {
        None => AuthGate::Refuse(401, owned("Authentication required")),
        Some(t) => AuthGate::CheckToken(t),
    }
}

/// The answer of the middleware that requires authentication when the session check
/// failed: 401.
pub fn invalid_session_refusal() -> (res: (u16, String))
    ensures
        res.0 == 401,
        res.1@ == "Invalid or expired session"@,
{
    (401, owned("Invalid or expired session"))
}

/// The decision of the middleware that requires an administrator: when authentication
/// is not required every request passes; an administrator passes; another user is
/// refused with 403, and a request without a user with 401.
pub fn require_admin_gate(auth_required: bool, user: Option<&User>) -> (res: Result<(), (u16, String)>)
    ensures
        !auth_required ==> res is Ok,
        auth_required ==> match user {
            Some(u) => if u.is_admin {
                res is Ok
            } else {
                res matches Err(e) && e.0 == 403 && e.1@ == "Admin access required"@
            },
            None => res matches Err(e) && e.0 == 401 && e.1@ == "Authentication required"@,
        },
{
    if !auth_required {
        return Ok(());
    }
    match user {
        Some(u) => if u.is_admin {
            Ok(())
        } else {
            Err((403, owned("Admin access required")))
        },
        None => Err((401, owned("Authentication required"))),
    }
}

} // verus!
