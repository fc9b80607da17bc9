//! The authentication routes: the session cookie they set and clear, the client
//! details they record, and the bodies they answer with.
use vstd::prelude::*;

use crate::auth::config::{env_flag, env_flag_exec, vars_view};
use crate::auth::errors::AuthError;
use crate::auth::middleware::{first_cookie_value, cookie_value, session_cookie_of, session_prefix, opt_str_view};
use crate::auth::models::User;
use crate::auth::providers::ProviderInfo;
use crate::auth::session::is_lower_hex;
use crate::text::{
    chars_of, decimal, decimal_i64, has_prefix, has_suffix, is_ws, lemma_split_prefix_piece, lemma_trim_id,
    opt_view, owned, push_str, split_chars, split_on, starts_with, string_of, trim, trim_chars,
    views,
};

verus! {

// ── Request and response bodies ──

/// The body of a local login.
#[derive(Debug, Clone)]
pub struct LoginRequest {
    pub email: String,
    pub password: String,
}

/// The body of an LDAP login.
#[derive(Debug, Clone)]
pub struct LdapLoginRequest {
    pub username: String,
    pub password: String,
}

/// The query of an OIDC callback.
#[derive(Debug, Clone)]
pub struct OidcCallbackQuery {
    pub code: String,
    pub state: String,
}

/// The answer to a successful login.
#[derive(Debug, Clone)]
pub struct AuthResponse {
    pub user: User,
}

/// The answer to a status request: whether users exist, whether authentication is
/// required, and the providers on offer.
#[derive(Debug, Clone)]
pub struct SetupStatusResponse {
    pub has_users: bool,
    pub auth_required: bool,
    pub providers: Vec<ProviderInfo>,
}

/// A refusal with an HTTP status and the message of its JSON `error` field.
#[derive(Debug, Clone)]
pub struct ErrorReply {
    pub status: u16,
    pub error: String,
}

// ── Cookies ──

/// The attributes of the session cookie, after its value.
pub open spec fn cookie_attributes() -> Seq<char> {
    "; HttpOnly; SameSite=Lax; Path=/; Max-Age="@
}

/// The `Set-Cookie` value that stores `token` for `max_age` seconds, marked `Secure`
/// when `secure` is set.
pub open spec fn set_cookie_text(token: Seq<char>, max_age: int, secure: bool) -> Seq<char> {
    session_prefix() + token + cookie_attributes() + decimal(max_age) + (if secure {
        "; Secure"@
    } else {
        Seq::<char>::empty()
    })
}

/// The `Set-Cookie` value that clears the session cookie.
pub open spec fn clear_cookie_text() -> Seq<char> {
    "vt_session=; HttpOnly; SameSite=Lax; Path=/; Max-Age=0"@
}

/// Whether session cookies are marked `Secure`: when `VT_AUTH_COOKIE_SECURE` is `true`
/// or `1`.
pub fn cookie_secure(vars: &[(String, String)]) -> (res: bool)
    ensures
        res == env_flag(vars_view(vars@), "VT_AUTH_COOKIE_SECURE"@),
{
    env_flag_exec(vars, "VT_AUTH_COOKIE_SECURE")
}

/// The `Set-Cookie` value that stores the session token `token` for `max_age` seconds.
pub fn set_session_cookie(token: &str, max_age: i64, secure: bool) -> (res: String)
    ensures
        res@ == set_cookie_text(token@, max_age as int, secure),
{
    let mut s = owned("vt_session=");
    push_str(&mut s, token);
    push_str(&mut s, "; HttpOnly; SameSite=Lax; Path=/; Max-Age=");
    let digits = decimal_i64(max_age);
    let d = string_of(digits.as_slice());
    push_str(&mut s, d.as_str());
    if secure {
        push_str(&mut s, "; Secure");
    }
    proof {
        reveal_strlit("vt_session=");
        reveal_strlit("; HttpOnly; SameSite=Lax; Path=/; Max-Age=");
        reveal_strlit("; Secure");
    }
    assert(s@ =~= set_cookie_text(token@, max_age as int, secure));
    s
}

/// The `Set-Cookie` value that clears the session cookie.
pub fn clear_session_cookie() -> (res: String)
    ensures
        res@ == clear_cookie_text(),
{
    owned("vt_session=; HttpOnly; SameSite=Lax; Path=/; Max-Age=0")
}

/// The session token that one piece of a `Cookie` header names on logout: the piece,
/// trimmed, begins with `vt_session=`; the value may be empty.
pub open spec fn logout_value(piece: Seq<char>) -> Option<Seq<char>> {
    let t = trim(piece);
    if has_prefix(t, session_prefix()) {
        Some(t.skip(session_prefix().len() as int))
    } else {
        None
    }
}

/// The value of the first piece that begins with `vt_session=`.
pub open spec fn first_logout_value(pieces: Seq<Seq<char>>) -> Option<Seq<char>>
    decreases pieces.len(),
{
    if pieces.len() == 0 {
        None
    } else {
        match logout_value(pieces[0]) {
            Some(v) => Some(v),
            None => first_logout_value(pieces.drop_first()),
        }
    }
}

/// The session token that a logout revokes, from the request's `Cookie` header.
pub open spec fn logout_token_of(header: Option<Seq<char>>) -> Option<Seq<char>> {
    match header {
        None => None,
        Some(h) => first_logout_value(split_on(h, ';')),
    }
}

fn logout_value_exec(piece: &[char]) -> (res: Option<Vec<char>>)
    ensures
        match res {
            Some(v) => logout_value(piece@) == Some(v@),
            None => logout_value(piece@) is None,
        },
{
    let t = trim_chars(piece);
    let prefix = chars_of("vt_session=");
    if starts_with(t.as_slice(), prefix.as_slice()) {
        let mut v: Vec<char> = Vec::new();
        crate::text::push_range(&mut v, t.as_slice(), prefix.len(), t.len());
        assert(v@ =~= t@.skip(prefix@.len() as int));
        Some(v)
    } else {
        None
    }
}

/// The session token that a logout request names in its `Cookie` header (absent when
/// the request has none): the rest of the first `;`-separated piece that, once
/// trimmed, begins with `vt_session=`.
pub fn logout_session_token(cookie_header: Option<&str>) -> (res: Option<String>)
    ensures
        opt_view(res) == logout_token_of(opt_str_view(cookie_header)),
{
    let header = match cookie_header {
        Some(h) => h,
        None => return None,
    };
    let cs = chars_of(header);
    let pieces = split_chars(cs.as_slice(), ';');
    let ghost ps = split_on(header@, ';');
    let n = pieces.len();
    let mut i: usize = 0;
    assert(ps.skip(0) =~= ps);
    while i < n
        invariant
            n == pieces@.len(),
            views(pieces@) == ps,
            ps == split_on(header@, ';'),
            opt_str_view(cookie_header) == Some(header@),
            i <= n,
            first_logout_value(ps.skip(i as int)) == first_logout_value(ps),
        decreases n - i,
    {
        assert(ps.skip(i as int)[0] == pieces@[i as int]@);
        assert(ps.skip(i as int).drop_first() =~= ps.skip(i + 1));
        match logout_value_exec(pieces[i].as_slice()) {
            Some(v) => {
                let s = string_of(v.as_slice());
                return Some(s);
            },
            None => {},
        }
        i = i + 1;
    }
    assert(ps.skip(n as int).len() == 0);
    None
}

/// A session token that holds no `;` and does not end in whitespace is read back
/// from the cookie that stores it: the `Cookie` parser, given the `Set-Cookie` value,
/// finds the token again, whatever the lifetime and the `Secure` flag.
pub proof fn lemma_session_cookie_roundtrip(token: Seq<char>, max_age: int, secure: bool)
    requires
        token.len() > 0,
        forall|j: int| 0 <= j < token.len() ==> #[trigger] token[j] != ';',
        !is_ws(token.last()),
    ensures
        session_cookie_of(Some(set_cookie_text(token, max_age, secure))) == Some(token),
        logout_token_of(Some(set_cookie_text(token, max_age, secure))) == Some(token),
{
    reveal_strlit("vt_session=");
    reveal_strlit("; HttpOnly; SameSite=Lax; Path=/; Max-Age=");
    let a = session_prefix() + token;
    let rest = cookie_attributes().drop_first() + decimal(max_age) + (if secure {
        "; Secure"@
    } else {
        Seq::<char>::empty()
    });
    assert(set_cookie_text(token, max_age, secure) =~= a.push(';') + rest);
    assert forall|j: int| 0 <= j < a.len() implies #[trigger] a[j] != ';' by {
        if j >= session_prefix().len() {
            assert(a[j] == token[j - session_prefix().len()]);
        }
    }
    lemma_split_prefix_piece(a, ';', rest);
    assert(a[0] == 'v');
    assert(a.last() == token.last());
    lemma_trim_id(a);
    assert(a.take(session_prefix().len() as int) =~= session_prefix());
    assert(a.skip(session_prefix().len() as int) =~= token);
    let ps = split_on(a.push(';') + rest, ';');
    assert(ps[0] == a);
    assert(cookie_value(a) == Some(token));
    assert(logout_value(a) == Some(token));
}

/// The session cookie stores the token under `vt_session`, hidden from scripts
/// (`HttpOnly`), sent on same-site requests and top-level navigation (`SameSite=Lax`),
/// for the whole site (`Path=/`), for the given number of seconds (`Max-Age`); it ends
/// with `; Secure` exactly when it is marked secure, and otherwise with its lifetime.
pub proof fn lemma_session_cookie_attributes(token: Seq<char>, max_age: int, secure: bool)
    ensures
        has_prefix(
            set_cookie_text(token, max_age, secure),
            "vt_session="@ + token + "; HttpOnly; SameSite=Lax; Path=/; Max-Age="@ + decimal(max_age),
        ),
        secure ==> has_suffix(set_cookie_text(token, max_age, secure), "; Secure"@),
        !secure ==> set_cookie_text(token, max_age, secure) == "vt_session="@ + token
            + "; HttpOnly; SameSite=Lax; Path=/; Max-Age="@ + decimal(max_age),
{
    let head = "vt_session="@ + token + "; HttpOnly; SameSite=Lax; Path=/; Max-Age="@ + decimal(
        max_age,
    );
    let tail = if secure {
        "; Secure"@
    } else {
        Seq::<char>::empty()
    };
    assert(set_cookie_text(token, max_age, secure) =~= head + tail);
    assert((head + tail).take(head.len() as int) =~= head);
    assert((head + tail).skip((head + tail).len() - tail.len()) =~= tail);
    assert(head + Seq::<char>::empty() =~= head);
}

/// The tokens this server issues, 64 lower-case hex digits, are read back from the
/// cookie that stores them.
pub proof fn lemma_issued_token_roundtrip(token: Seq<char>, max_age: int, secure: bool)
    requires
        token.len() == 64,
        is_lower_hex(token),
    ensures
        session_cookie_of(Some(set_cookie_text(token, max_age, secure))) == Some(token),
{
    assert forall|j: int| 0 <= j < token.len() implies #[trigger] token[j] != ';' by {
        assert(('0' <= token[j] && token[j] <= '9') || ('a' <= token[j] && token[j] <= 'f'));
    }
    assert(('0' <= token[63] && token[63] <= '9') || ('a' <= token[63] && token[63] <= 'f'));
    lemma_session_cookie_roundtrip(token, max_age, secure);
}

/// One attribute piece of the cleared cookie, ` name`, carries no session token: trimmed,
/// it is `name`, which does not begin with `vt_session=`.
proof fn lemma_attribute_piece(name: Seq<char>)
    requires
        name.len() > 0,
        !is_ws(name[0]),
        !is_ws(name.last()),
        name[0] != 'v',
    ensures
        cookie_value(seq![' '] + name) is None,
        logout_value(seq![' '] + name) is None,
{
    reveal_strlit("vt_session=");
    let p = seq![' '] + name;
    crate::text::lemma_trim_drop_ws(p);
    assert(p.drop_first() =~= name);
    lemma_trim_id(name);
    if name.len() >= session_prefix().len() {
        assert(name.take(session_prefix().len() as int)[0] != session_prefix()[0]);
    }
}

/// The cookie that logout sets carries no session token: the `Cookie` parser finds
/// none in it, and a logout reading it revokes the empty token.
pub proof fn lemma_cleared_cookie_holds_no_session()
    ensures
        session_cookie_of(Some(clear_cookie_text())) is None,
        logout_token_of(Some(clear_cookie_text())) == Some(Seq::<char>::empty()),
{
    reveal_strlit("vt_session=; HttpOnly; SameSite=Lax; Path=/; Max-Age=0");
    reveal_strlit("vt_session=");
    let a = session_prefix();
    let h = " HttpOnly"@;
    let s = " SameSite=Lax"@;
    let p = " Path=/"@;
    let m = " Max-Age=0"@;
    reveal_strlit(" HttpOnly");
    reveal_strlit(" SameSite=Lax");
    reveal_strlit(" Path=/");
    reveal_strlit(" Max-Age=0");
    let r3 = m;
    let r2 = p.push(';') + r3;
    let r1 = s.push(';') + r2;
    let r0 = h.push(';') + r1;
    assert(clear_cookie_text() =~= a.push(';') + r0);
    lemma_split_prefix_piece(a, ';', r0);
    lemma_split_prefix_piece(h, ';', r1);
    lemma_split_prefix_piece(s, ';', r2);
    lemma_split_prefix_piece(p, ';', r3);
    crate::text::lemma_split_without_sep(m, ';');
    let pieces = seq![a] + (seq![h] + (seq![s] + (seq![p] + seq![m])));
    assert(split_on(clear_cookie_text(), ';') =~= pieces);
    lemma_trim_id(a);
    assert(a.take(a.len() as int) =~= a);
    assert(a.skip(a.len() as int) =~= Seq::<char>::empty());
    assert(cookie_value(a) is None);
    assert(logout_value(a) == Some(Seq::<char>::empty()));
    lemma_attribute_piece(h.drop_first());
    lemma_attribute_piece(s.drop_first());
    lemma_attribute_piece(p.drop_first());
    lemma_attribute_piece(m.drop_first());
    assert(seq![' '] + h.drop_first() =~= h);
    assert(seq![' '] + s.drop_first() =~= s);
    assert(seq![' '] + p.drop_first() =~= p);
    assert(seq![' '] + m.drop_first() =~= m);
    assert(pieces.drop_first() =~= seq![h, s, p, m]);
    assert(seq![h, s, p, m].drop_first() =~= seq![s, p, m]);
    assert(seq![s, p, m].drop_first() =~= seq![p, m]);
    assert(seq![p, m].drop_first() =~= seq![m]);
    assert(seq![m].drop_first() =~= Seq::<Seq<char>>::empty());
    assert(first_cookie_value(Seq::<Seq<char>>::empty()) is None);
    assert(seq![m][0] == m);
    assert(first_cookie_value(seq![m]) is None);
    assert(first_cookie_value(seq![p, m]) is None);
    assert(first_cookie_value(seq![s, p, m]) is None);
    assert(first_cookie_value(seq![h, s, p, m]) is None);
}

// ── Client details ──

/// The client address that a request reports: the first entry of `X-Forwarded-For`,
/// trimmed, when that header is present; else `X-Real-IP`.
pub open spec fn client_ip_of(forwarded_for: Option<Seq<char>>, real_ip: Option<Seq<char>>) -> Option<
    Seq<char>,
> {
    match forwarded_for {
        Some(f) => Some(trim(split_on(f, ',')[0])),
        None => real_ip,
    }
}

/// The client address is the first entry of `X-Forwarded-For` when that header is
/// present, whatever follows it and whatever `X-Real-IP` says; without it, it is
/// `X-Real-IP`.
pub proof fn lemma_client_ip_is_the_first_forwarded_entry(
    first: Seq<char>,
    rest: Seq<char>,
    real_ip: Option<Seq<char>>,
)
    requires
        forall|j: int| 0 <= j < first.len() ==> #[trigger] first[j] != ',',
        first.len() > 0 ==> !is_ws(first[0]) && !is_ws(first.last()),
    ensures
        client_ip_of(Some(first.push(',') + rest), real_ip) == Some(first),
        client_ip_of(Some(first), real_ip) == Some(first),
        client_ip_of(None, real_ip) == real_ip,
{
    lemma_split_prefix_piece(first, ',', rest);
    crate::text::lemma_split_without_sep(first, ',');
    lemma_trim_id(first);
}

/// The client address and user agent of a request, from the values of its
/// `X-Forwarded-For`, `X-Real-IP` and `User-Agent` headers (absent when missing or not
/// valid text).
pub fn extract_client_info(
    forwarded_for: Option<&str>,
    real_ip: Option<&str>,
    user_agent: Option<&str>,
) -> (res: (Option<String>, Option<String>))
    ensures
        opt_view(res.0) == client_ip_of(opt_str_view(forwarded_for), opt_str_view(real_ip)),
        opt_view(res.1) == opt_str_view(user_agent),
{
    let ip = match forwarded_for {
        Some(f) => {
            let cs = chars_of(f);
            let pieces = split_chars(cs.as_slice(), ',');
            proof {
                crate::text::lemma_split_nonempty(f@, ',');
            }
            assert(pieces@[0]@ == split_on(f@, ',')[0]);
            let t = trim_chars(pieces[0].as_slice());
            Some(string_of(t.as_slice()))
        },
        None => match real_ip {
            Some(r) => Some(owned(r)),
            None => None,
        },
    };
    let ua = match user_agent {
        Some(u) => Some(owned(u)),
        None => None,
    };
    (ip, ua)
}

// ── Decisions ──

/// The refusal when user authentication is not enabled.
pub open spec fn auth_unavailable_error() -> Seq<char> {
    "Authentication not enabled"@
}

/// The refusal of a route that needs the authentication service when it is not enabled.
pub fn auth_unavailable() -> (r: ErrorReply)
    ensures
        r.status == 503,
        r.error@ == auth_unavailable_error(),
{
    ErrorReply { status: 503, error: owned("Authentication not enabled") }
}

/// The answer to a status request. Without authentication, nothing is required and no
/// provider is offered; with it, whether users exist (taken as no when the count
/// failed) and the configured providers.
pub fn setup_status(
    enabled: bool,
    has_users: Result<bool, AuthError>,
    providers: Vec<ProviderInfo>,
) -> (r: SetupStatusResponse)
    ensures
        !enabled ==> !r.has_users && !r.auth_required && r.providers@.len() == 0,
        enabled ==> r.auth_required && r.providers@ == providers@ && r.has_users == (match has_users {
            Ok(b) => b,
            Err(_) => false,
        }),
{
    if !enabled {
        return SetupStatusResponse { has_users: false, auth_required: false, providers: Vec::new() };
    }
    let h = match has_users {
        Ok(b) => b,
        Err(_) => false,
    };
    SetupStatusResponse { has_users: h, auth_required: true, providers }
}

} // verus!
