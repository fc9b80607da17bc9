//! Session tokens: generation, hashing for storage, and hexadecimal encoding.
use vstd::prelude::*;
use vstd::string::StringSliceAdditionalSpecFns;

use crate::auth::errors::AuthError;
use crate::auth::models::{is_after, UserSession, UserSessionRow, UtcInstant};
use crate::external::{
    chrono_representable, first_four_digit_second, is_uuid_v4_text, format_rfc3339, last_four_digit_second, new_uuid_v4, now_utc,
    parse_rfc3339, random_bytes, rfc3339_parse, rfc3339_text, sha256, sha256_digest,
};
use crate::text::{concat2, owned, push_char, string_of};

verus! {

/// The lower-case hexadecimal digit of a value below sixteen.
pub open spec fn hex_digit(d: int) -> char {
    if d < 10 {
        (('0' as int) + d) as char
    } else {
        (('a' as int) + d - 10) as char
    }
}

/// The lower-case hexadecimal text of a byte sequence: two digits per byte, high
/// nibble first.
pub open spec fn hex_of(b: Seq<u8>) -> Seq<char>
    decreases b.len(),
{
    if b.len() == 0 {
        Seq::<char>::empty()
    } else {
        hex_of(b.drop_last()).push(hex_digit((b.last() as int) / 16)).push(hex_digit((b.last() as int) % 16))
    }
}

/// The text is lower-case hexadecimal.
pub open spec fn is_lower_hex(s: Seq<char>) -> bool {
    forall|i: int|
        0 <= i < s.len() ==> (('0' <= #[trigger] s[i] && s[i] <= '9') || ('a' <= s[i] && s[i]
            <= 'f'))
}

/// The stored form of a session token: the hex text of the SHA-256 digest of its UTF-8 bytes.
pub open spec fn token_hash_of(token: Seq<char>) -> Seq<char> {
    hex_of(sha256_digest(vstd::utf8::encode_utf8(token)))
}

/// Hex text has two characters per byte.
pub proof fn lemma_hex_len(b: Seq<u8>)
    ensures
        hex_of(b).len() == 2 * b.len(),
    decreases b.len(),
{
    if b.len() > 0 {
        lemma_hex_len(b.drop_last());
    }
}

/// Hex text consists of lower-case hexadecimal digits only.
pub proof fn lemma_hex_is_lower_hex(b: Seq<u8>)
    ensures
        is_lower_hex(hex_of(b)),
    decreases b.len(),
{
    if b.len() > 0 {
        lemma_hex_is_lower_hex(b.drop_last());
        lemma_hex_len(b.drop_last());
        let h = hex_of(b.drop_last());
        let hi = (b.last() as int) / 16;
        let lo = (b.last() as int) % 16;
        assert(0 <= hi < 16 && 0 <= lo < 16);
        assert forall|i: int| 0 <= i < hex_of(b).len() implies (('0' <= #[trigger] hex_of(b)[i]
            && hex_of(b)[i] <= '9') || ('a' <= hex_of(b)[i] && hex_of(b)[i] <= 'f')) by {
            if i < h.len() {
                assert(hex_of(b)[i] == h[i]);
            }
        }
    }
}

/// Each byte is written as two digits at its own place, the high nibble first: byte
/// `k` gives the digits at `2k` and `2k + 1`, each the digit of
/// `0123456789abcdef` at the nibble's value.
pub proof fn lemma_hex_digits_of_each_byte(b: Seq<u8>, k: int)
    requires
        0 <= k < b.len(),
    ensures
        hex_of(b)[2 * k] == "0123456789abcdef"@[(b[k] as int) / 16],
        hex_of(b)[2 * k + 1] == "0123456789abcdef"@[(b[k] as int) % 16],
    decreases b.len(),
{
    lemma_hex_len(b.drop_last());
    if k < b.len() - 1 {
        lemma_hex_digits_of_each_byte(b.drop_last(), k);
        assert(b.drop_last()[k] == b[k]);
    }
    lemma_hex_digit_alphabet((b[k] as int) / 16);
    lemma_hex_digit_alphabet((b[k] as int) % 16);
}

proof fn lemma_hex_digit_alphabet(d: int)
    requires
        0 <= d < 16,
    ensures
        hex_digit(d) == "0123456789abcdef"@[d],
{
    reveal_strlit("0123456789abcdef");
    if d == 0 {} else if d == 1 {} else if d == 2 {} else if d == 3 {} else if d == 4 {}
    else if d == 5 {} else if d == 6 {} else if d == 7 {} else if d == 8 {} else if d == 9 {}
    else if d == 10 {} else if d == 11 {} else if d == 12 {} else if d == 13 {} else if d == 14 {}
    else {}
}

proof fn lemma_hex_digit_injective(x: int, y: int)
    requires
        0 <= x < 16,
        0 <= y < 16,
        hex_digit(x) == hex_digit(y),
    ensures
        x == y,
{
}

/// Different byte sequences have different hex texts.
pub proof fn lemma_hex_injective(a: Seq<u8>, b: Seq<u8>)
    requires
        hex_of(a) == hex_of(b),
    ensures
        a == b,
    decreases a.len(),
{
    lemma_hex_len(a);
    lemma_hex_len(b);
    if a.len() > 0 {
        let ha = hex_of(a);
        let hb = hex_of(b);
        lemma_hex_len(a.drop_last());
        lemma_hex_len(b.drop_last());
        let n = ha.len();
        assert(ha[n - 2] == hb[n - 2]);
        assert(ha[n - 1] == hb[n - 1]);
        lemma_hex_digit_injective((a.last() as int) / 16, (b.last() as int) / 16);
        lemma_hex_digit_injective((a.last() as int) % 16, (b.last() as int) % 16);
        assert(a.last() == b.last());
        assert(hex_of(a.drop_last()) =~= ha.subrange(0, n - 2));
        assert(hex_of(b.drop_last()) =~= hb.subrange(0, n - 2));
        lemma_hex_injective(a.drop_last(), b.drop_last());
        assert(a =~= a.drop_last().push(a.last()));
        assert(b =~= b.drop_last().push(b.last()));
    }
}

fn hex_digit_exec(d: u8) -> (c: char)
    requires
        d < 16,
    ensures
        c == hex_digit(d as int),
{
    if d < 10 {
        ((48u8 + d) as char)
    } else {
        ((87u8 + d) as char)
    }
}

/// Lower-case hexadecimal text of `bytes`, two digits per byte.
pub fn hex_encode(bytes: &[u8]) -> (res: String)
    ensures
        res@ == hex_of(bytes@),
{
    let mut res = String::new();
    let n = bytes.len();
    for i in 0..n
        invariant
            n == bytes@.len(),
            res@ == hex_of(bytes@.take(i as int)),
    {
        let b = bytes[i];
        push_char(&mut res, hex_digit_exec(b / 16));
        push_char(&mut res, hex_digit_exec(b % 16));
        assert(bytes@.take(i + 1).drop_last() =~= bytes@.take(i as int));
    }
    assert(bytes@.take(n as int) =~= bytes@);
    res
}

/// Hexadecimal encoding (lower case) of a byte string.
pub fn encode(bytes: &[u8]) -> (res: String)
    ensures
        res@ == hex_of(bytes@),
{
    hex_encode(bytes)
}

/// Generates a random 256-bit session token, as 64 lower-case hex digits.
pub fn generate_token() -> (token: String)
    ensures
        token@.len() == 64,
        is_lower_hex(token@),
        exists|b: Seq<u8>| b.len() == 32 && token@ == hex_of(b),
{
    let bytes = random_bytes(32);
    let token = hex_encode(bytes.as_slice());
    proof {
        lemma_hex_len(bytes@);
        lemma_hex_is_lower_hex(bytes@);
    }
    token
}

/// The SHA-256 hash of a session token, as 64 lower-case hex digits; this is what is
/// stored in place of the token.
pub fn hash_token(token: &str) -> (res: String)
    ensures
        res@ == token_hash_of(token@),
        res@.len() == 64,
        is_lower_hex(res@),
{
    let digest = sha256(token.as_bytes());
    let res = hex_encode(digest.as_slice());
    proof {
        lemma_hex_len(digest@);
        lemma_hex_is_lower_hex(digest@);
    }
    res
}

/// Two tokens have the same stored hash exactly when their SHA-256 digests agree; in
/// particular the hash of a token is always the same.
pub proof fn lemma_token_hash_matches_digest(t1: Seq<char>, t2: Seq<char>)
    ensures
        (token_hash_of(t1) == token_hash_of(t2)) <==> (sha256_digest(
            vstd::utf8::encode_utf8(t1),
        ) == sha256_digest(vstd::utf8::encode_utf8(t2))),
{
    if token_hash_of(t1) == token_hash_of(t2) {
        lemma_hex_injective(
            sha256_digest(vstd::utf8::encode_utf8(t1)),
            sha256_digest(vstd::utf8::encode_utf8(t2)),
        );
    }
}

// ───────────────────────── sessions ─────────────────────────

/// The largest session lifetime, in seconds, that a time span can hold.
pub const MAX_TTL_SECONDS: i64 = 9223372036854775;

/// What storing a new session takes, and the token to hand to the client.
#[derive(Debug, Clone)]
pub struct NewSession {
    /// The token for the client; only its hash is stored.
    pub token: String,
    pub token_hash: String,
    pub session_id: String,
    pub created_at: UtcInstant,
    pub expires_at: UtcInstant,
    /// `expires_at` as RFC 3339 text, as it is stored.
    pub expires_at_text: String,
}

/// A reading of the clock: at or after the Unix epoch, representable by chrono, with
/// fewer than a billion nanoseconds.
pub open spec fn clock_reading(t: UtcInstant) -> bool {
    0 <= t.secs && chrono_representable(t.secs as int, t.nanos as int)
}

/// An instant whose RFC 3339 text reads back as the same instant: one in the years
/// 0000 to 9999 with fewer than a billion nanoseconds.
pub open spec fn reads_back(t: UtcInstant) -> bool {
    first_four_digit_second() <= t.secs <= last_four_digit_second() && t.nanos < 1_000_000_000
}

/// The expiry of a session created at `now` that lives `ttl_seconds`, with its
/// RFC 3339 text; `None` when that instant cannot be represented (its seconds overflow
/// `i64`, or chrono has no date for it).
pub open spec fn expiry_of(now: UtcInstant, ttl_seconds: i64) -> Option<(UtcInstant, Seq<char>)> {
    let secs = now.secs + ttl_seconds;
    if secs < i64::MIN || secs > i64::MAX {
        None
    } else {
        match rfc3339_text(secs as i64, now.nanos) {
            Some(text) => Some((UtcInstant { secs: secs as i64, nanos: now.nanos }, text)),
            None => None,
        }
    }
}

/// The expiry of a session created at `now` that lives `ttl_seconds`, with its
/// RFC 3339 text as it is stored; an expiry that cannot be represented is an internal
/// error.
pub fn session_expiry(now: UtcInstant, ttl_seconds: i64) -> (res: Result<(UtcInstant, String), AuthError>)
    ensures
        match expiry_of(now, ttl_seconds) {
            Some((e, t)) => res matches Ok((x, y)) && x == e && y@ == t,
            None => res matches Err(AuthError::Internal(m)) && m@ == "session expiry out of range"@,
        },
        res matches Ok((e, t)) ==> (reads_back(e) ==> (rfc3339_parse(t@) matches Ok(v) && v == (
            e.secs,
            e.nanos,
        ))),
        res is Err ==> !chrono_representable(now.secs + ttl_seconds, now.nanos as int),
{
    let secs = match now.secs.checked_add(ttl_seconds) {
        Some(v) => v,
        None => return Err(AuthError::Internal(owned("session expiry out of range"))),
    };
    match format_rfc3339(secs, now.nanos) {
        Some(text) => Ok((UtcInstant { secs, nanos: now.nanos }, text)),
        None => Err(AuthError::Internal(owned("session expiry out of range"))),
    }
}

/// Prepares a new session that lives `ttl_seconds` from now: a fresh token, its hash,
/// a fresh session id and the expiry (see [`session_expiry`]). When the expiry cannot
/// be represented the session cannot be created and the result is an internal error.
pub fn new_session(ttl_seconds: i64) -> (res: Result<NewSession, AuthError>)
    requires
        -MAX_TTL_SECONDS <= ttl_seconds <= MAX_TTL_SECONDS,
    ensures
        res matches Ok(s) ==> {
            &&& s.token@.len() == 64
            &&& is_lower_hex(s.token@)
            &&& s.token_hash@ == token_hash_of(s.token@)
            &&& is_uuid_v4_text(s.session_id@)
            &&& clock_reading(s.created_at)
            &&& expiry_of(s.created_at, ttl_seconds) == Some((s.expires_at, s.expires_at_text@))
            &&& reads_back(s.expires_at) ==> (rfc3339_parse(s.expires_at_text@) matches Ok(v) && v == (
                s.expires_at.secs,
                s.expires_at.nanos,
            ))
        },
        res matches Err(e) ==> (e matches AuthError::Internal(m) && m@ == "session expiry out of range"@),
        res is Err ==> exists|c: UtcInstant|
            clock_reading(c) && !chrono_representable(#[trigger] (c.secs + ttl_seconds), c.nanos as int),
{
    let token = generate_token();
    let token_hash = hash_token(token.as_str());
    let session_id = new_uuid_v4();
    let (now_secs, now_nanos) = now_utc();
    let created_at = UtcInstant { secs: now_secs, nanos: now_nanos };
    match session_expiry(created_at, ttl_seconds) {
        Ok((expires_at, text)) => Ok(
            NewSession { token, token_hash, session_id, created_at, expires_at, expires_at_text: text },
        ),
        Err(e) => {
            assert(clock_reading(created_at));
            Err(e)
        },
    }
}

/// The expiry of a stored session if it is valid at `now`: it is not revoked, its
/// expiry reads as an instant, and `now` does not come after that instant.
pub open spec fn session_accepts(row: UserSessionRow, now: UtcInstant) -> Option<UtcInstant> {
    if row.revoked != 0 {
        None
    } else {
        match rfc3339_parse(row.expires_at@) {
            Ok((secs, nanos)) => {
                let exp = UtcInstant { secs, nanos };
                if is_after(now, exp) {
                    None
                } else {
                    Some(exp)
                }
            },
            Err(_) => None,
        }
    }
}

/// Decides whether a stored session is valid at `now`: a revoked session is refused
/// as revoked, an unreadable expiry is an internal error, a session whose expiry lies
/// before `now` is refused as expired, and any other session is valid.
pub fn check_session(row: UserSessionRow, now: UtcInstant) -> (res: Result<UserSession, AuthError>)
    ensures
        row.revoked != 0 ==> res matches Err(AuthError::SessionRevoked),
        row.revoked == 0 ==> match rfc3339_parse(row.expires_at@) {
            Err(msg) => res matches Err(AuthError::Internal(m)) && m@ == "Invalid expiry date: "@
                + msg,
            Ok((secs, nanos)) => {
                let exp = UtcInstant { secs, nanos };
                if is_after(now, exp) {
                    res matches Err(AuthError::SessionExpired)
                } else {
                    res matches Ok(s) && s == (UserSession {
                        id: row.id,
                        user_id: row.user_id,
                        expires_at: exp,
                        revoked: false,
                    })
                }
            },
        },
        res is Ok <==> session_accepts(row, now) is Some,
        res matches Ok(s) ==> (Some(s.expires_at) == session_accepts(row, now) && s.id == row.id
            && s.user_id == row.user_id && !s.revoked),
{
    if row.revoked != 0 {
        return Err(AuthError::SessionRevoked);
    }
    let expires_at = match parse_rfc3339(row.expires_at.as_str()) {
        Ok((secs, nanos)) => UtcInstant { secs, nanos },
        Err(e) => return Err(AuthError::Internal(concat2("Invalid expiry date: ", e.as_str()))),
    };
    if now.after(&expires_at) {
        return Err(AuthError::SessionExpired);
    }
    Ok(UserSession { id: row.id, user_id: row.user_id, expires_at, revoked: false })
}

/// Decides, at the present time, whether the session stored under a token is valid;
/// `row` is the stored session found for the token's hash, if any. No session means
/// the request is unauthorized; a revoked session is refused; a session that is
/// accepted was not revoked and carries the expiry stored for it.
pub fn validate_session_row(row: Option<UserSessionRow>) -> (res: Result<UserSession, AuthError>)
    ensures
        row is None ==> res matches Err(AuthError::Unauthorized),
        row matches Some(r) ==> (r.revoked != 0 ==> res matches Err(AuthError::SessionRevoked)),
        row matches Some(r) ==> (res matches Ok(s) ==> r.revoked == 0 && s.id == r.id && s.user_id
            == r.user_id && !s.revoked && (rfc3339_parse(r.expires_at@) matches Ok(v) && v == (
            s.expires_at.secs,
            s.expires_at.nanos,
        ))),
        row matches Some(r) ==> (r.revoked == 0 ==> match rfc3339_parse(r.expires_at@) {
            Err(msg) => res matches Err(AuthError::Internal(m)) && m@ == "Invalid expiry date: "@ + msg,
            Ok(_) => res is Ok || res matches Err(AuthError::SessionExpired),
        }),
{
    match row {
        None => Err(AuthError::Unauthorized),
        Some(r) => {
            let (secs, nanos) = now_utc();
            check_session(r, UtcInstant { secs, nanos })
        },
    }
}

/// A session stored as `new_session` prepares it — not revoked, with the expiry text
/// that reads back as its expiry — is accepted at any time up to and including that
/// expiry, and carries that expiry.
pub proof fn lemma_created_session_validates(row: UserSessionRow, exp: UtcInstant, now: UtcInstant)
    requires
        row.revoked == 0,
        rfc3339_parse(row.expires_at@) matches Ok(v) && v == (exp.secs, exp.nanos),
        !is_after(now, exp),
    ensures
        session_accepts(row, now) == Some(exp),
{
}

/// A revoked session is never accepted, whatever the time and its expiry.
pub proof fn lemma_revoked_session_never_accepted(row: UserSessionRow, now: UtcInstant)
    requires
        row.revoked != 0,
    ensures
        session_accepts(row, now) is None,
{
}

} // verus!
