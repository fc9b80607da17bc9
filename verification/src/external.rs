//! The calls into outside crates that the library's logic makes. Each function here
//! is trusted: Verus believes its contract; the doc comment says what the contract
//! claims of the outside code.
use vstd::prelude::*;
use vstd::string::StringSliceAdditionalSpecFns;

verus! {

// ───────────────────────── sha2 ─────────────────────────

/// The SHA-256 digest of a byte sequence.
pub uninterp spec fn sha256_digest(data: Seq<u8>) -> Seq<u8>;

/// `sha2::Sha256::digest`: the SHA-256 digest of `data`. The contract names the
/// result (`sha256_digest` of the bytes) and states its documented size, 32 bytes.
#[verifier::external_body]
pub(crate) fn sha256(data: &[u8]) -> (res: Vec<u8>)
    ensures
        res@ == sha256_digest(data@),
        res@.len() == 32,
{
    <sha2::Sha256 as sha2::Digest>::digest(data).to_vec()
}

// ───────────────────────── rand ─────────────────────────

/// `rand::RngCore::fill_bytes` on `rand::thread_rng()`: `n` random bytes. The
/// contract states only the length; the values are chance.
#[verifier::external_body]
pub(crate) fn random_bytes(n: usize) -> (res: Vec<u8>)
    ensures
        res@.len() == n,
{
    let mut buf = vec![0u8; n];
    rand::RngCore::fill_bytes(&mut rand::thread_rng(), &mut buf);
    buf
}

// ───────────────────────── base64 ─────────────────────────

/// The character of a six-bit value in the URL-safe base64 alphabet (RFC 4648 §5).
pub open spec fn b64url_char(v: int) -> char {
    if v < 26 {
        (('A' as int) + v) as char
    } else if v < 52 {
        (('a' as int) + v - 26) as char
    } else if v < 62 {
        (('0' as int) + v - 52) as char
    } else if v == 62 {
        '-'
    } else {
        '_'
    }
}

/// Unpadded URL-safe base64 (RFC 4648 §5, no `=`): each group of three bytes gives four
/// characters, a final group of one or two bytes gives two or three.
pub open spec fn base64url_nopad(b: Seq<u8>) -> Seq<char>
    decreases b.len(),
{
    if b.len() == 0 {
        Seq::<char>::empty()
    } else if b.len() == 1 {
        seq![b64url_char((b[0] as int) / 4), b64url_char(((b[0] as int) % 4) * 16)]
    } else if b.len() == 2 {
        seq![
            b64url_char((b[0] as int) / 4),
            b64url_char(((b[0] as int) % 4) * 16 + (b[1] as int) / 16),
            b64url_char(((b[1] as int) % 16) * 4),
        ]
    } else {
        seq![
            b64url_char((b[0] as int) / 4),
            b64url_char(((b[0] as int) % 4) * 16 + (b[1] as int) / 16),
            b64url_char(((b[1] as int) % 16) * 4 + (b[2] as int) / 64),
            b64url_char((b[2] as int) % 64),
        ] + base64url_nopad(b.skip(3))
    }
}

/// `base64::engine::general_purpose::URL_SAFE_NO_PAD.encode`: the unpadded URL-safe
/// base64 text of `data`, as RFC 4648 §5 defines it. The encoder panics only when the
/// output length overflows `usize`, which the bound on `data` rules out.
#[verifier::external_body]
pub(crate) fn base64url_encode(data: &[u8]) -> (res: String)
    requires
        data@.len() <= 1024,
    ensures
        res@ == base64url_nopad(data@),
{
    base64::Engine::encode(&base64::engine::general_purpose::URL_SAFE_NO_PAD, data)
}

// ───────────────────────── urlencoding ─────────────────────────

/// The bytes that `urlencoding::encode` leaves as they are.
pub open spec fn url_unreserved(b: u8) -> bool {
    ||| (0x30 <= b && b <= 0x39)
    ||| (0x41 <= b && b <= 0x5a)
    ||| (0x61 <= b && b <= 0x7a)
    ||| b == 0x2d
    ||| b == 0x2e
    ||| b == 0x5f
    ||| b == 0x7e
}

/// An upper-case hexadecimal digit.
pub open spec fn hex_upper(d: int) -> char {
    if d < 10 {
        (('0' as int) + d) as char
    } else {
        (('A' as int) + d - 10) as char
    }
}

/// Percent-encoding of a byte sequence: every byte but the unreserved ones becomes
/// `%` and two upper-case hex digits.
pub open spec fn percent_encode(b: Seq<u8>) -> Seq<char>
    decreases b.len(),
{
    if b.len() == 0 {
        Seq::<char>::empty()
    } else {
        (if url_unreserved(b[0]) {
            seq![b[0] as char]
        } else {
            seq!['%', hex_upper((b[0] as int) / 16), hex_upper((b[0] as int) % 16)]
        }) + percent_encode(b.drop_first())
    }
}

/// A percent-encoded value cannot leave its place in a URL or a form: it holds no
/// `&`, `=`, `?`, `#`, `+` or space.
pub proof fn lemma_percent_encoded_has_no_delimiters(b: Seq<u8>)
    ensures
        forall|i: int|
            0 <= i < percent_encode(b).len() ==> {
                let c = #[trigger] percent_encode(b)[i];
                c != '&' && c != '=' && c != '?' && c != '#' && c != '+' && c != ' '
            },
    decreases b.len(),
{
    if b.len() > 0 {
        lemma_percent_encoded_has_no_delimiters(b.drop_first());
        let head = if url_unreserved(b[0]) {
            seq![b[0] as char]
        } else {
            seq!['%', hex_upper((b[0] as int) / 16), hex_upper((b[0] as int) % 16)]
        };
        let rest = percent_encode(b.drop_first());
        assert(percent_encode(b) == head + rest);
        assert forall|i: int| 0 <= i < percent_encode(b).len() implies {
            let c = #[trigger] percent_encode(b)[i];
            c != '&' && c != '=' && c != '?' && c != '#' && c != '+' && c != ' '
        } by {
            if i < head.len() {
                assert(percent_encode(b)[i] == head[i]);
            } else {
                assert(percent_encode(b)[i] == rest[i - head.len()]);
            }
        }
    }
}

/// `urlencoding::encode`: percent-encodes every UTF-8 byte of `s` except ASCII
/// alphanumerics and `-`, `.`, `_`, `~` (the crate's documentation and source).
#[verifier::external_body]
pub(crate) fn url_encode(s: &str) -> (res: String)
    ensures
        res@ == percent_encode(s.spec_bytes()),
{
    urlencoding::encode(s).into_owned()
}

// ───────────────────────── chrono ─────────────────────────

/// What parsing an RFC 3339 text gives: the UTC instant it denotes, as whole seconds
/// since the Unix epoch and nanoseconds past them, or the parser's error message.
pub uninterp spec fn rfc3339_parse(s: Seq<char>) -> Result<(i64, u32), Seq<char>>;

/// `chrono::DateTime::parse_from_rfc3339`, then the instant in UTC as
/// `(timestamp(), timestamp_subsec_nanos())`, or the text of the parse error. The
/// contract names the result (`rfc3339_parse` of the text); the grammar is chrono's
/// and is not restated.
#[verifier::external_body]
pub(crate) fn parse_rfc3339(s: &str) -> (res: Result<(i64, u32), String>)
    ensures
        res matches Ok(v) ==> (rfc3339_parse(s@) matches Ok(w) && w == v),
        res matches Err(e) ==> (rfc3339_parse(s@) matches Err(m) && m == e@),
{
    match chrono::DateTime::parse_from_rfc3339(s) {
        Ok(dt) => Ok((dt.timestamp(), dt.timestamp_subsec_nanos())),
        Err(e) => Err(e.to_string()),
    }
}

/// The RFC 3339 text of a UTC instant, or `None` when chrono cannot represent it.
pub uninterp spec fn rfc3339_text(secs: i64, nanos: u32) -> Option<Seq<char>>;

/// The first second of the year 0000, in seconds since the Unix epoch.
pub open spec fn first_four_digit_second() -> int {
    -62167219200
}

/// The last second of the year 9999, in seconds since the Unix epoch.
pub open spec fn last_four_digit_second() -> int {
    253402300799
}

/// The first second that chrono can represent (the year -262143 begins), in seconds
/// since the Unix epoch.
pub open spec fn first_chrono_second() -> int {
    -8334601315200
}

/// The last second that chrono can represent (the year 262142 ends), in seconds since
/// the Unix epoch.
pub open spec fn last_chrono_second() -> int {
    8210266876799
}

/// An instant that chrono can represent, with fewer than a billion nanoseconds.
pub open spec fn chrono_representable(secs: int, nanos: int) -> bool {
    first_chrono_second() <= secs <= last_chrono_second() && 0 <= nanos < 1_000_000_000
}

/// `chrono::DateTime::<Utc>::from_timestamp`, then `to_rfc3339`. The contract names the
/// result (`rfc3339_text` of the two numbers); the format is chrono's. `from_timestamp`
/// gives a date for every second from the first day of chrono's first year to the last
/// day of its last year, with fewer than a billion nanoseconds, and `to_rfc3339` never
/// fails. For an instant
/// in the years 0000 to 9999 with fewer than a billion nanoseconds, chrono's source
/// writes a four-digit year, the fields, all non-zero fraction digits and `+00:00`
/// (`write_rfc3339`), which `parse_from_rfc3339` reads back as the same instant; the
/// contract states that round trip.
#[verifier::external_body]
pub(crate) fn format_rfc3339(secs: i64, nanos: u32) -> (res: Option<String>)
    ensures
        res matches Some(t) ==> rfc3339_text(secs, nanos) == Some(t@),
        res is None ==> rfc3339_text(secs, nanos) is None,
        res is None ==> !chrono_representable(secs as int, nanos as int),
        res matches Some(t) ==> ((first_four_digit_second() <= secs <= last_four_digit_second()
            && nanos < 1_000_000_000) ==> (rfc3339_parse(t@) matches Ok(v) && v == (secs, nanos))),
{
    match chrono::DateTime::from_timestamp(secs, nanos) {
        Some(dt) => Some(dt.to_rfc3339()),
        None => None,
    }
}

/// `chrono::Utc::now`, as `(timestamp(), timestamp_subsec_nanos())`. The value is the
/// clock's; what holds of every reading is stated: chrono builds it from the time since
/// the Unix epoch (it panics on a clock set before 1970), with the sub-second part of a
/// `Duration`, below a billion nanoseconds, and unwraps `from_timestamp`, so the
/// instant is one that chrono can represent.
#[verifier::external_body]
pub(crate) fn now_utc() -> (res: (i64, u32))
    ensures
        0 <= res.0,
        chrono_representable(res.0 as int, res.1 as int),
{
    let now = chrono::Utc::now();
    (now.timestamp(), now.timestamp_subsec_nanos())
}

/// `chrono::Utc::now().to_rfc3339()`: the current time as RFC 3339 text. Nothing is
/// promised of the value: it is the clock's.
#[verifier::external_body]
pub(crate) fn now_rfc3339() -> (res: String) {
    chrono::Utc::now().to_rfc3339()
}

// ───────────────────────── http ─────────────────────────

/// The bytes of a valid HTTP header value: each is a tab, or at least 32 and not 127.
pub open spec fn valid_header_value(b: Seq<u8>) -> bool {
    forall|i: int| 0 <= i < b.len() ==> (#[trigger] b[i] == 9 || (b[i] >= 32 && b[i] != 127))
}

/// `http::HeaderValue::from_str` (through axum's re-export): whether the text is a
/// valid header value. In http's source (`try_from_generic`, `is_valid`) the text is
/// accepted exactly when each of its bytes is a tab, or at least 32 and not 127.
#[verifier::external_body]
pub(crate) fn is_valid_header_value(s: &str) -> (res: bool)
    ensures
        res == valid_header_value(s.spec_bytes()),
{
    axum::http::HeaderValue::from_str(s).is_ok()
}

// ───────────────────────── uuid ─────────────────────────

/// A lower-case hexadecimal digit.
pub open spec fn is_lower_hex_digit(c: char) -> bool {
    ('0' <= c && c <= '9') || ('a' <= c && c <= 'f')
}

/// The hyphenated text of a version-4 UUID: 36 characters, hyphens at positions 8, 13,
/// 18 and 23, lower-case hex digits elsewhere, the version digit `4` at position 14 and
/// the variant digit `8`, `9`, `a` or `b` at position 19.
pub open spec fn is_uuid_v4_text(s: Seq<char>) -> bool {
    &&& s.len() == 36
    &&& forall|i: int|
        0 <= i < 36 ==> if i == 8 || i == 13 || i == 18 || i == 23 {
            #[trigger] s[i] == '-'
        } else {
            is_lower_hex_digit(s[i])
        }
    &&& s[14] == '4'
    &&& (s[19] == '8' || s[19] == '9' || s[19] == 'a' || s[19] == 'b')
}

/// `uuid::Uuid::new_v4().to_string()`: a random version-4 UUID in its hyphenated,
/// lower-case form. `new_v4` masks the random bits so that the version is 4 and the
/// variant is RFC 4122's, and `Display` writes the hyphenated lower-case form. The
/// value itself is chance.
#[verifier::external_body]
pub(crate) fn new_uuid_v4() -> (res: String)
    ensures
        is_uuid_v4_text(res@),
{
    uuid::Uuid::new_v4().to_string()
}

} // verus!
