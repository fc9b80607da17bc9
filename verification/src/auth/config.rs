//! Authentication configuration and its parsing from environment variables.
//!
//! The environment is handed in as its `(name, value)` pairs, so that reading it stays
//! with the caller; every rule of the parsing is here.
use vstd::prelude::*;

use crate::text::{
    chars_of, decimal, decimal_i64, digit_char, digits, opt_view, owned, push_str, split_chars, split_on, str_eq, string_of,
    strings_view, trim, trim_chars, views,
};

verus! {

// ───────────────────────── types ─────────────────────────

/// Authentication configuration.
#[derive(Debug, Clone)]
pub struct AuthConfig {
    pub mode: AuthMode,
    pub session_ttl: i64,
    pub local: LocalAuthConfig,
    pub oidc_providers: Vec<OidcProviderConfig>,
    pub ldap: LdapConfig,
}

/// Whether requests must carry a valid session.
#[derive(Debug, Clone, Copy, PartialEq, Eq, Structural)]
pub enum AuthMode {
    NotRequired,
    Required,
}

/// Configuration of the email-and-password provider.
#[derive(Debug, Clone, Copy)]
pub struct LocalAuthConfig {
    pub enabled: bool,
}

/// Configuration of one OpenID Connect provider.
#[derive(Debug, Clone)]
pub struct OidcProviderConfig {
    pub name: String,
    pub issuer_url: String,
    pub client_id: String,
    pub client_secret: String,
    pub scopes: Vec<String>,
}

/// Configuration of the LDAP provider.
#[derive(Debug, Clone)]
pub struct LdapConfig {
    pub enabled: bool,
    pub url: String,
    pub bind_dn_template: String,
    pub search_base: String,
    pub user_filter: String,
    pub use_tls: bool,
    pub use_starttls: bool,
    pub attr_email: String,
    pub attr_name: String,
    pub attr_username: String,
}

/// The content of an OIDC provider configuration.
pub struct OidcProviderConfigView {
    pub name: Seq<char>,
    pub issuer_url: Seq<char>,
    pub client_id: Seq<char>,
    pub client_secret: Seq<char>,
    pub scopes: Seq<Seq<char>>,
}

impl View for OidcProviderConfig {
    type V = OidcProviderConfigView;

    open spec fn view(&self) -> OidcProviderConfigView {
        OidcProviderConfigView {
            name: self.name@,
            issuer_url: self.issuer_url@,
            client_id: self.client_id@,
            client_secret: self.client_secret@,
            scopes: strings_view(self.scopes@),
        }
    }
}

/// The content of an LDAP configuration.
pub struct LdapConfigView {
    pub enabled: bool,
    pub url: Seq<char>,
    pub bind_dn_template: Seq<char>,
    pub search_base: Seq<char>,
    pub user_filter: Seq<char>,
    pub use_tls: bool,
    pub use_starttls: bool,
    pub attr_email: Seq<char>,
    pub attr_name: Seq<char>,
    pub attr_username: Seq<char>,
}

impl View for LdapConfig {
    type V = LdapConfigView;

    open spec fn view(&self) -> LdapConfigView {
        LdapConfigView {
            enabled: self.enabled,
            url: self.url@,
            bind_dn_template: self.bind_dn_template@,
            search_base: self.search_base@,
            user_filter: self.user_filter@,
            use_tls: self.use_tls,
            use_starttls: self.use_starttls,
            attr_email: self.attr_email@,
            attr_name: self.attr_name@,
            attr_username: self.attr_username@,
        }
    }
}

/// The views of a sequence of OIDC provider configurations.
pub open spec fn oidc_views(v: Seq<OidcProviderConfig>) -> Seq<OidcProviderConfigView> {
    v.map_values(|c: OidcProviderConfig| c@)
}

// ───────────────────────── defaults ─────────────────────────

/// Seven days, in seconds.
pub const DEFAULT_SESSION_TTL: i64 = 604800;

/// The LDAP configuration when nothing is configured.
pub open spec fn default_ldap() -> LdapConfigView {
    LdapConfigView {
        enabled: false,
        url: Seq::<char>::empty(),
        bind_dn_template: Seq::<char>::empty(),
        search_base: Seq::<char>::empty(),
        user_filter: "(uid={username})"@,
        use_tls: false,
        use_starttls: false,
        attr_email: "mail"@,
        attr_name: "cn"@,
        attr_username: "uid"@,
    }
}

impl Default for LdapConfig {
    fn default() -> (res: Self)
        ensures
            res@ == default_ldap(),
    {
        LdapConfig {
            enabled: false,
            url: String::new(),
            bind_dn_template: String::new(),
            search_base: String::new(),
            user_filter: owned("(uid={username})"),
            use_tls: false,
            use_starttls: false,
            attr_email: owned("mail"),
            attr_name: owned("cn"),
            attr_username: owned("uid"),
        }
    }
}

impl LdapConfig {
    /// A copy of the configuration.
    pub fn duplicate(&self) -> (res: Self)
        ensures
            res@ == self@,
    {
        LdapConfig {
            enabled: self.enabled,
            url: self.url.clone(),
            bind_dn_template: self.bind_dn_template.clone(),
            search_base: self.search_base.clone(),
            user_filter: self.user_filter.clone(),
            use_tls: self.use_tls,
            use_starttls: self.use_starttls,
            attr_email: self.attr_email.clone(),
            attr_name: self.attr_name.clone(),
            attr_username: self.attr_username.clone(),
        }
    }
}

impl Default for AuthConfig {
    fn default() -> (res: Self)
        ensures
            res.mode == AuthMode::NotRequired,
            res.session_ttl == DEFAULT_SESSION_TTL,
            res.local.enabled,
            res.oidc_providers@.len() == 0,
            res.ldap@ == default_ldap(),
    {
        AuthConfig {
            mode: AuthMode::NotRequired,
            session_ttl: DEFAULT_SESSION_TTL,
            local: LocalAuthConfig { enabled: true },
            oidc_providers: Vec::new(),
            ldap: LdapConfig::default(),
        }
    }
}

impl AuthConfig {
    /// Whether every request must be authenticated.
    pub fn auth_required(&self) -> (b: bool)
        ensures
            b == (self.mode == AuthMode::Required),
    {
        self.mode == AuthMode::Required
    }
}

// ───────────────────────── environment ─────────────────────────

/// The environment as `(name, value)` texts.
pub open spec fn vars_view(v: Seq<(String, String)>) -> Seq<(Seq<char>, Seq<char>)> {
    v.map_values(|p: (String, String)| (p.0@, p.1@))
}

/// The value of the first variable called `key`.
pub open spec fn env_lookup(vars: Seq<(Seq<char>, Seq<char>)>, key: Seq<char>) -> Option<
    Seq<char>,
>
    decreases vars.len(),
{
    if vars.len() == 0 {
        None
    } else if vars[0].0 == key {
        Some(vars[0].1)
    } else {
        env_lookup(vars.drop_first(), key)
    }
}

/// The value of a variable, or `default` when it is unset.
pub open spec fn env_or(vars: Seq<(Seq<char>, Seq<char>)>, key: Seq<char>, default: Seq<char>) -> Seq<
    char,
> {
    match env_lookup(vars, key) {
        Some(v) => v,
        None => default,
    }
}

/// A flag that is on when set to `true` or `1`, and off otherwise or when unset.
pub open spec fn env_flag(vars: Seq<(Seq<char>, Seq<char>)>, key: Seq<char>) -> bool {
    match env_lookup(vars, key) {
        Some(v) => v == "true"@ || v == "1"@,
        None => false,
    }
}

proof fn lemma_lookup_skip(vars: Seq<(Seq<char>, Seq<char>)>, key: Seq<char>, i: int)
    requires
        0 <= i < vars.len(),
        vars[i].0 != key,
    ensures
        env_lookup(vars.skip(i), key) == env_lookup(vars.skip(i + 1), key),
{
    assert(vars.skip(i).drop_first() =~= vars.skip(i + 1));
}

/// The value of the first variable called `key`.
pub fn env_get(vars: &[(String, String)], key: &str) -> (res: Option<String>)
    ensures
        opt_view(res) == env_lookup(vars_view(vars@), key@),
{
    let ghost vv = vars_view(vars@);
    let n = vars.len();
    let mut i: usize = 0;
    assert(vv.skip(0) =~= vv);
    while i < n
        invariant
            n == vars@.len(),
            vv == vars_view(vars@),
            i <= n,
            env_lookup(vv.skip(i as int), key@) == env_lookup(vv, key@),
        decreases n - i,
    {
        if str_eq(vars[i].0.as_str(), key) {
            assert(vv.skip(i as int)[0] == vv[i as int]);
            let v = vars[i].1.clone();
            return Some(v);
        }
        proof {
            lemma_lookup_skip(vv, key@, i as int);
        }
        i = i + 1;
    }
    assert(vv.skip(n as int).len() == 0);
    None
}

pub fn env_get_or(vars: &[(String, String)], key: &str, default: &str) -> (res: String)
    ensures
        res@ == env_or(vars_view(vars@), key@, default@),
{
    match env_get(vars, key) {
        Some(v) => v,
        None => owned(default),
    }
}

pub fn env_flag_exec(vars: &[(String, String)], key: &str) -> (res: bool)
    ensures
        res == env_flag(vars_view(vars@), key@),
{
    match env_get(vars, key) {
        Some(v) => str_eq(v.as_str(), "true") || str_eq(v.as_str(), "1"),
        None => false,
    }
}

// ───────────────────────── integers ─────────────────────────

/// A decimal digit character.
pub open spec fn is_digit(c: char) -> bool {
    '0' <= c && c <= '9'
}

/// The value of a text of decimal digits.
pub open spec fn digits_value(s: Seq<char>) -> int
    decreases s.len(),
{
    if s.len() == 0 {
        0
    } else {
        digits_value(s.drop_last()) * 10 + ((s.last() as int) - ('0' as int))
    }
}

/// The digits part of an integer text: the text without its leading sign, if any.
pub open spec fn parse_body(s: Seq<char>) -> Seq<char> {
    if s.len() > 0 && (s[0] == '-' || s[0] == '+') {
        s.drop_first()
    } else {
        s
    }
}

/// The text consists of decimal digits only.
pub open spec fn all_digits(s: Seq<char>) -> bool {
    forall|j: int| 0 <= j < s.len() ==> is_digit(#[trigger] s[j])
}

/// The `i64` that `str::parse::<i64>` gives: an optional `+` or `-`, then one or more
/// decimal digits, within range.
pub open spec fn parse_i64(s: Seq<char>) -> Option<i64> {
    let neg = s.len() > 0 && s[0] == '-';
    let body = parse_body(s);
    if body.len() == 0 || !all_digits(body) {
        None
    } else {
        let v = if neg {
            -digits_value(body)
        } else {
            digits_value(body)
        };
        if i64::MIN <= v && v <= i64::MAX {
            Some(v as i64)
        } else {
            None
        }
    }
}

proof fn lemma_digit_char_value(r: int)
    requires
        0 <= r < 10,
    ensures
        (digit_char(r) as int) - ('0' as int) == r,
        is_digit(digit_char(r)),
{
}

proof fn lemma_digits_read_back(n: nat)
    ensures
        digits(n).len() > 0,
        all_digits(digits(n)),
        digits_value(digits(n)) == n,
    decreases n,
{
    lemma_digit_char_value((n % 10) as int);
    let s = digits(n);
    if n < 10 {
        assert(n % 10 == n);
        assert(s.drop_last() =~= Seq::<char>::empty());
        assert(digits_value(s) == digits_value(s.drop_last()) * 10 + ((s.last() as int) - ('0' as int)));
    } else {
        lemma_digits_read_back(n / 10);
        let d = digits(n / 10);
        assert(digits(n).drop_last() =~= d);
        assert(digits(n).last() == digit_char((n % 10) as int));
        assert((n / 10) * 10 + n % 10 == n);
        assert(digits_value(s) == digits_value(d) * 10 + ((s.last() as int) - ('0' as int)));
        assert forall|j: int| 0 <= j < digits(n).len() implies is_digit(#[trigger] digits(n)[j]) by {
            if j < d.len() {
                assert(digits(n)[j] == d[j]);
            }
        }
    }
}

/// Every `i64` reads back from its decimal text: `str::parse::<i64>` of what
/// `format!("{}", n)` writes is `n` again, negative numbers included.
pub proof fn lemma_decimal_reads_back(n: i64)
    ensures
        parse_i64(decimal(n as int)) == Some(n),
{
    if n < 0 {
        let m = (-(n as int)) as nat;
        lemma_digits_read_back(m);
        let s = decimal(n as int);
        assert(s.drop_first() =~= digits(m));
        assert(parse_body(s) == digits(m));
    } else {
        lemma_digits_read_back(n as nat);
        let d = digits(n as nat);
        assert(is_digit(d[0]));
    }
}

proof fn lemma_parse_nondigit(s: Seq<char>, j: int)
    requires
        0 <= j < parse_body(s).len(),
        !is_digit(parse_body(s)[j]),
    ensures
        parse_i64(s) is None,
{
}

proof fn lemma_parse_too_large(s: Seq<char>, k: int)
    requires
        0 <= k <= parse_body(s).len(),
        digits_value(parse_body(s).take(k)) > 9223372036854775808,
        forall|j: int| 0 <= j < k ==> is_digit(#[trigger] parse_body(s)[j]),
    ensures
        parse_i64(s) is None,
{
    let body = parse_body(s);
    if all_digits(body) {
        lemma_digits_value_grows(body, k);
    }
}

proof fn lemma_digits_value_grows(s: Seq<char>, i: int)
    requires
        0 <= i <= s.len(),
        forall|j: int| 0 <= j < s.len() ==> is_digit(#[trigger] s[j]),
    ensures
        digits_value(s) >= digits_value(s.take(i)) >= 0,
    decreases s.len() - i,
{
    if i == s.len() {
        assert(s.take(i) =~= s);
        lemma_digits_value_nonneg(s);
    } else {
        let t = s.take(i + 1);
        assert(t.drop_last() =~= s.take(i));
        assert(is_digit(s[i]));
        lemma_digits_value_grows(s, i + 1);
        lemma_digits_value_nonneg(s.take(i));
    }
}

proof fn lemma_digits_value_nonneg(s: Seq<char>)
    requires
        forall|j: int| 0 <= j < s.len() ==> is_digit(#[trigger] s[j]),
    ensures
        digits_value(s) >= 0,
    decreases s.len(),
{
    if s.len() > 0 {
        let t = s.drop_last();
        assert forall|j: int| 0 <= j < t.len() implies is_digit(#[trigger] t[j]) by {
            assert(t[j] == s[j]);
        }
        assert(is_digit(s[s.len() - 1]));
        lemma_digits_value_nonneg(t);
    }
}

/// Parses an `i64` the way `str::parse::<i64>` does.
pub fn parse_i64_exec(s: &str) -> (res: Option<i64>)
    ensures
        res == parse_i64(s@),
{
    let cs = chars_of(s);
    let n = cs.len();
    let neg = n > 0 && cs[0] == '-';
    let start: usize = if n > 0 && (cs[0] == '-' || cs[0] == '+') {
        1
    } else {
        0
    };
    let ghost body = parse_body(s@);
    assert(body =~= cs@.skip(start as int));
    if start >= n {
        return None;
    }
    let mut acc: u128 = 0;
    let mut i = start;
    let bound: u128 = 9223372036854775808;
    while i < n
        invariant
            n == cs@.len(),
            cs@ == s@,
            start <= i <= n,
            body == cs@.skip(start as int),
            body == parse_body(s@),
            bound == 9223372036854775808u128,
            forall|j: int| start <= j < i ==> is_digit(#[trigger] cs@[j]),
            acc == digits_value(cs@.subrange(start as int, i as int)),
            acc <= bound,
        decreases n - i,
    {
        let c = cs[i];
        if !('0' <= c && c <= '9') {
            proof {
                lemma_parse_nondigit(s@, i - start);
            }
            return None;
        }
        let d = (c as u32 - '0' as u32) as u128;
        assert(cs@.subrange(start as int, i + 1).drop_last() =~= cs@.subrange(
            start as int,
            i as int,
        ));
        assert(acc * 10 + d <= bound * 10 + 9) by (nonlinear_arith)
            requires
                acc <= bound,
                d <= 9,
        ;
        acc = acc * 10 + d;
        if acc > bound {
            proof {
                assert(cs@.subrange(start as int, i + 1) =~= body.take(i + 1 - start));
                lemma_parse_too_large(s@, i + 1 - start);
            }
            return None;
        }
        i = i + 1;
    }
    assert(cs@.subrange(start as int, n as int) =~= body);
    if neg {
        if acc == bound {
            Some(i64::MIN)
        } else {
            Some(-(acc as i64))
        }
    } else {
        if acc == bound {
            None
        } else {
            Some(acc as i64)
        }
    }
}

// ───────────────────────── the configuration ─────────────────────────

/// Authentication mode: required exactly when `VT_AUTH_MODE` is `required`.
pub open spec fn mode_from(vars: Seq<(Seq<char>, Seq<char>)>) -> AuthMode {
    if env_lookup(vars, "VT_AUTH_MODE"@) == Some("required"@) {
        AuthMode::Required
    } else {
        AuthMode::NotRequired
    }
}

/// Session lifetime: `VT_SESSION_TTL` when it parses as an `i64`, else seven days.
pub open spec fn ttl_from(vars: Seq<(Seq<char>, Seq<char>)>) -> i64 {
    match env_lookup(vars, "VT_SESSION_TTL"@) {
        Some(v) => match parse_i64(v) {
            Some(t) => t,
            None => DEFAULT_SESSION_TTL,
        },
        None => DEFAULT_SESSION_TTL,
    }
}

/// Local provider: enabled unless `VT_AUTH_LOCAL_ENABLED` is `false` or `0`.
pub open spec fn local_enabled_from(vars: Seq<(Seq<char>, Seq<char>)>) -> bool {
    match env_lookup(vars, "VT_AUTH_LOCAL_ENABLED"@) {
        Some(v) => v != "false"@ && v != "0"@,
        None => true,
    }
}

/// The name of variable `suffix` of OIDC provider `i`: `VT_AUTH_OIDC_{i}_{suffix}`.
pub open spec fn oidc_key(i: int, suffix: Seq<char>) -> Seq<char> {
    "VT_AUTH_OIDC_"@ + decimal(i) + "_"@ + suffix
}

/// The scopes of a comma-separated scope list, each trimmed.
pub open spec fn scopes_of(list: Seq<char>) -> Seq<Seq<char>> {
    split_on(list, ',').map_values(|p: Seq<char>| trim(p))
}

/// The configuration of OIDC provider `i`, given that its name, issuer and client id
/// are set.
pub open spec fn oidc_config_at(vars: Seq<(Seq<char>, Seq<char>)>, i: int) -> OidcProviderConfigView {
    OidcProviderConfigView {
        name: env_or(vars, oidc_key(i, "NAME"@), Seq::<char>::empty()),
        issuer_url: env_or(vars, oidc_key(i, "ISSUER_URL"@), Seq::<char>::empty()),
        client_id: env_or(vars, oidc_key(i, "CLIENT_ID"@), Seq::<char>::empty()),
        client_secret: env_or(vars, oidc_key(i, "CLIENT_SECRET"@), ""@),
        scopes: scopes_of(env_or(vars, oidc_key(i, "SCOPES"@), "openid,email,profile"@)),
    }
}

/// The OIDC providers numbered `i` to 10: the numbering stops at the first provider
/// without a name, and a provider without an issuer or a client id is skipped.
pub open spec fn oidc_configs_from(vars: Seq<(Seq<char>, Seq<char>)>, i: int) -> Seq<
    OidcProviderConfigView,
>
    decreases 11 - i,
{
    if i < 1 || i > 10 {
        Seq::empty()
    } else if env_lookup(vars, oidc_key(i, "NAME"@)) is None {
        Seq::empty()
    } else if env_lookup(vars, oidc_key(i, "ISSUER_URL"@)) is None || env_lookup(
        vars,
        oidc_key(i, "CLIENT_ID"@),
    ) is None {
        oidc_configs_from(vars, i + 1)
    } else {
        seq![oidc_config_at(vars, i)] + oidc_configs_from(vars, i + 1)
    }
}

/// The LDAP configuration of the environment: all defaults unless
/// `VT_AUTH_LDAP_ENABLED` is on.
pub open spec fn ldap_from(vars: Seq<(Seq<char>, Seq<char>)>) -> LdapConfigView {
    if !env_flag(vars, "VT_AUTH_LDAP_ENABLED"@) {
        default_ldap()
    } else {
        LdapConfigView {
            enabled: true,
            url: env_or(vars, "VT_AUTH_LDAP_URL"@, ""@),
            bind_dn_template: env_or(vars, "VT_AUTH_LDAP_BIND_DN_TEMPLATE"@, ""@),
            search_base: env_or(vars, "VT_AUTH_LDAP_SEARCH_BASE"@, ""@),
            user_filter: env_or(vars, "VT_AUTH_LDAP_USER_FILTER"@, "(uid={username})"@),
            use_tls: env_flag(vars, "VT_AUTH_LDAP_TLS"@),
            use_starttls: env_flag(vars, "VT_AUTH_LDAP_STARTTLS"@),
            attr_email: env_or(vars, "VT_AUTH_LDAP_ATTR_EMAIL"@, "mail"@),
            attr_name: env_or(vars, "VT_AUTH_LDAP_ATTR_NAME"@, "cn"@),
            attr_username: env_or(vars, "VT_AUTH_LDAP_ATTR_USERNAME"@, "uid"@),
        }
    }
}

fn oidc_key_exec(i: u64, suffix: &str) -> (res: String)
    requires
        i <= 10,
    ensures
        res@ == oidc_key(i as int, suffix@),
{
    let d = decimal_i64(i as i64);
    let mut s = owned("VT_AUTH_OIDC_");
    let ds = string_of(d.as_slice());
    push_str(&mut s, ds.as_str());
    push_str(&mut s, "_");
    push_str(&mut s, suffix);
    s
}

fn scopes_exec(list: &str) -> (res: Vec<String>)
    ensures
        strings_view(res@) == scopes_of(list@),
{
    let cs = chars_of(list);
    let pieces = split_chars(cs.as_slice(), ',');
    let mut res: Vec<String> = Vec::new();
    let n = pieces.len();
    for k in 0..n
        invariant
            n == pieces@.len(),
            views(pieces@) == split_on(list@, ','),
            strings_view(res@) == scopes_of(list@).take(k as int),
    {
        proof {
            crate::text::lemma_split_nonempty(list@, ',');
        }
        assert(scopes_of(list@).len() == n);
        assert(scopes_of(list@)[k as int] == trim(split_on(list@, ',')[k as int]));
        let t = trim_chars(pieces[k].as_slice());
        let s = string_of(t.as_slice());
        let ghost before = strings_view(res@);
        res.push(s);
        assert(strings_view(res@) =~= before.push(s@));
        assert(scopes_of(list@).take(k + 1) =~= scopes_of(list@).take(k as int).push(
            scopes_of(list@)[k as int],
        ));
        assert(views(pieces@)[k as int] == pieces@[k as int]@);
        assert(strings_view(res@) =~= scopes_of(list@).take(k + 1));
    }
    assert(scopes_of(list@).take(n as int) =~= scopes_of(list@));
    res
}

/// Parses the OIDC providers `VT_AUTH_OIDC_1_*` to `VT_AUTH_OIDC_10_*`.
fn parse_oidc_providers(vars: &[(String, String)]) -> (res: Vec<OidcProviderConfig>)
    ensures
        oidc_views(res@) == oidc_configs_from(vars_view(vars@), 1),
{
    let ghost vv = vars_view(vars@);
    let mut res: Vec<OidcProviderConfig> = Vec::new();
    let mut i: u64 = 1;
    while i <= 10
        invariant
            1 <= i <= 11,
            vv == vars_view(vars@),
            oidc_views(res@) + oidc_configs_from(vv, i as int) == oidc_configs_from(vv, 1),
        decreases 11 - i,
    {
        let name = match env_get(vars, oidc_key_exec(i, "NAME").as_str()) {
            Some(v) => v,
            None => {
                assert(oidc_views(res@) =~= oidc_views(res@) + Seq::<OidcProviderConfigView>::empty());
                return res;
            },
        };
        let issuer_url = match env_get(vars, oidc_key_exec(i, "ISSUER_URL").as_str()) {
            Some(v) => v,
            None => {
                i = i + 1;
                continue;
            },
        };
        let client_id = match env_get(vars, oidc_key_exec(i, "CLIENT_ID").as_str()) {
            Some(v) => v,
            None => {
                i = i + 1;
                continue;
            },
        };
        let client_secret = env_get_or(vars, oidc_key_exec(i, "CLIENT_SECRET").as_str(), "");
        let scope_list = env_get_or(vars, oidc_key_exec(i, "SCOPES").as_str(), "openid,email,profile");
        let scopes = scopes_exec(scope_list.as_str());
        let cfg = OidcProviderConfig { name, issuer_url, client_id, client_secret, scopes };
        assert(cfg@ == oidc_config_at(vv, i as int));
        let ghost before = oidc_views(res@);
        res.push(cfg);
        assert(oidc_views(res@) =~= before.push(cfg@));
        assert(oidc_views(res@) + oidc_configs_from(vv, i + 1) =~= before + (seq![cfg@]
            + oidc_configs_from(vv, i + 1)));
        i = i + 1;
    }
    assert(oidc_views(res@) =~= oidc_views(res@) + Seq::<OidcProviderConfigView>::empty());
    res
}

/// Parses the LDAP configuration `VT_AUTH_LDAP_*`.
fn parse_ldap_config(vars: &[(String, String)]) -> (res: LdapConfig)
    ensures
        res@ == ldap_from(vars_view(vars@)),
{
    let enabled = env_flag_exec(vars, "VT_AUTH_LDAP_ENABLED");
    if !enabled {
        return LdapConfig::default();
    }
    LdapConfig {
        enabled: true,
        url: env_get_or(vars, "VT_AUTH_LDAP_URL", ""),
        bind_dn_template: env_get_or(vars, "VT_AUTH_LDAP_BIND_DN_TEMPLATE", ""),
        search_base: env_get_or(vars, "VT_AUTH_LDAP_SEARCH_BASE", ""),
        user_filter: env_get_or(vars, "VT_AUTH_LDAP_USER_FILTER", "(uid={username})"),
        use_tls: env_flag_exec(vars, "VT_AUTH_LDAP_TLS"),
        use_starttls: env_flag_exec(vars, "VT_AUTH_LDAP_STARTTLS"),
        attr_email: env_get_or(vars, "VT_AUTH_LDAP_ATTR_EMAIL", "mail"),
        attr_name: env_get_or(vars, "VT_AUTH_LDAP_ATTR_NAME", "cn"),
        attr_username: env_get_or(vars, "VT_AUTH_LDAP_ATTR_USERNAME", "uid"),
    }
}

impl AuthConfig {
    /// The configuration that the environment variables `vars` describe.
    pub fn from_vars(vars: &[(String, String)]) -> (res: AuthConfig)
        ensures
            res.mode == mode_from(vars_view(vars@)),
            res.session_ttl == ttl_from(vars_view(vars@)),
            res.local.enabled == local_enabled_from(vars_view(vars@)),
            oidc_views(res.oidc_providers@) == oidc_configs_from(vars_view(vars@), 1),
            res.ldap@ == ldap_from(vars_view(vars@)),
    {
        let mode = match env_get(vars, "VT_AUTH_MODE") {
            Some(v) => if str_eq(v.as_str(), "required") {
                AuthMode::Required
            } else {
                AuthMode::NotRequired
            },
            None => AuthMode::NotRequired,
        };
        let session_ttl = match env_get(vars, "VT_SESSION_TTL") {
            Some(v) => match parse_i64_exec(v.as_str()) {
                Some(t) => t,
                None => DEFAULT_SESSION_TTL,
            },
            None => DEFAULT_SESSION_TTL,
        };
        let local_enabled = match env_get(vars, "VT_AUTH_LOCAL_ENABLED") {
            Some(v) => !str_eq(v.as_str(), "false") && !str_eq(v.as_str(), "0"),
            None => true,
        };
        let oidc_providers = parse_oidc_providers(vars);
        let ldap = parse_ldap_config(vars);
        AuthConfig {
            mode,
            session_ttl,
            local: LocalAuthConfig { enabled: local_enabled },
            oidc_providers,
            ldap,
        }
    }
}

/// At most ten OIDC providers are configured, and each has the name, issuer and client
/// id that its variables give.
pub proof fn lemma_oidc_configs_bounded(vars: Seq<(Seq<char>, Seq<char>)>, i: int)
    requires
        1 <= i <= 11,
    ensures
        oidc_configs_from(vars, i).len() <= 11 - i,
    decreases 11 - i,
{
    if i <= 10 {
        lemma_oidc_configs_bounded(vars, i + 1);
    }
}

/// A variable's value is that of its first occurrence in the environment, and a
/// variable that does not occur is unset.
pub proof fn lemma_lookup_finds_the_first_occurrence(vars: Seq<(Seq<char>, Seq<char>)>, key: Seq<char>)
    ensures
        env_lookup(vars, key) is None <==> forall|j: int| 0 <= j < vars.len() ==> vars[j].0 != key,
        env_lookup(vars, key) matches Some(v) ==> exists|i: int|
            0 <= i < vars.len() && #[trigger] vars[i] == (key, v) && forall|j: int|
                0 <= j < i ==> vars[j].0 != key,
    decreases vars.len(),
{
    if vars.len() > 0 {
        lemma_lookup_finds_the_first_occurrence(vars.drop_first(), key);
        if vars[0].0 != key {
            if env_lookup(vars, key) is None {
                assert forall|j: int| 0 <= j < vars.len() implies vars[j].0 != key by {
                    if j > 0 {
                        assert(vars[j] == vars.drop_first()[j - 1]);
                    }
                }
            } else {
                let v = env_lookup(vars, key)->0;
                let i = choose|i: int|
                    0 <= i < vars.drop_first().len() && #[trigger] vars.drop_first()[i] == (key, v)
                        && forall|j: int| 0 <= j < i ==> vars.drop_first()[j].0 != key;
                assert(vars[i + 1] == (key, v));
                assert forall|j: int| 0 <= j < i + 1 implies vars[j].0 != key by {
                    if j > 0 {
                        assert(vars[j] == vars.drop_first()[j - 1]);
                    }
                }
            }
        } else {
            assert(vars[0] == (key, vars[0].1));
        }
    }
}

/// The LDAP settings follow their variables. Unless `VT_AUTH_LDAP_ENABLED` is `true`
/// or `1`, LDAP is off and every setting has its default. When it is on, each text
/// setting is its variable's value when the variable is set and its default only when
/// it is unset (an empty URL, bind template and search base, the filter
/// `(uid={username})`, and the attributes `mail`, `cn` and `uid`), and TLS and
/// STARTTLS are on exactly when their variables are `true` or `1`.
pub proof fn lemma_ldap_settings_follow_their_variables(vars: Seq<(Seq<char>, Seq<char>)>)
    ensures
        ldap_from(vars).enabled <==> (env_lookup(vars, "VT_AUTH_LDAP_ENABLED"@) == Some("true"@)
            || env_lookup(vars, "VT_AUTH_LDAP_ENABLED"@) == Some("1"@)),
        !ldap_from(vars).enabled ==> ({
            let c = ldap_from(vars);
            &&& c.url.len() == 0 && c.bind_dn_template.len() == 0 && c.search_base.len() == 0
            &&& c.user_filter == "(uid={username})"@
            &&& !c.use_tls && !c.use_starttls
            &&& c.attr_email == "mail"@ && c.attr_name == "cn"@ && c.attr_username == "uid"@
        }),
        ldap_from(vars).enabled ==> ({
            let c = ldap_from(vars);
            &&& env_lookup(vars, "VT_AUTH_LDAP_URL"@) matches Some(v) ==> c.url == v
            &&& env_lookup(vars, "VT_AUTH_LDAP_URL"@) is None ==> c.url.len() == 0
            &&& env_lookup(vars, "VT_AUTH_LDAP_BIND_DN_TEMPLATE"@) matches Some(v) ==> c.bind_dn_template == v
            &&& env_lookup(vars, "VT_AUTH_LDAP_BIND_DN_TEMPLATE"@) is None ==> c.bind_dn_template.len() == 0
            &&& env_lookup(vars, "VT_AUTH_LDAP_SEARCH_BASE"@) matches Some(v) ==> c.search_base == v
            &&& env_lookup(vars, "VT_AUTH_LDAP_SEARCH_BASE"@) is None ==> c.search_base.len() == 0
            &&& env_lookup(vars, "VT_AUTH_LDAP_USER_FILTER"@) matches Some(v) ==> c.user_filter == v
            &&& env_lookup(vars, "VT_AUTH_LDAP_USER_FILTER"@) is None ==> c.user_filter == "(uid={username})"@
            &&& c.use_tls <==> (env_lookup(vars, "VT_AUTH_LDAP_TLS"@) == Some("true"@) || env_lookup(
                vars,
                "VT_AUTH_LDAP_TLS"@,
            ) == Some("1"@))
            &&& c.use_starttls <==> (env_lookup(vars, "VT_AUTH_LDAP_STARTTLS"@) == Some("true"@)
                || env_lookup(vars, "VT_AUTH_LDAP_STARTTLS"@) == Some("1"@))
            &&& env_lookup(vars, "VT_AUTH_LDAP_ATTR_EMAIL"@) matches Some(v) ==> c.attr_email == v
            &&& env_lookup(vars, "VT_AUTH_LDAP_ATTR_EMAIL"@) is None ==> c.attr_email == "mail"@
            &&& env_lookup(vars, "VT_AUTH_LDAP_ATTR_NAME"@) matches Some(v) ==> c.attr_name == v
            &&& env_lookup(vars, "VT_AUTH_LDAP_ATTR_NAME"@) is None ==> c.attr_name == "cn"@
            &&& env_lookup(vars, "VT_AUTH_LDAP_ATTR_USERNAME"@) matches Some(v) ==> c.attr_username == v
            &&& env_lookup(vars, "VT_AUTH_LDAP_ATTR_USERNAME"@) is None ==> c.attr_username == "uid"@
        }),
{
    reveal_strlit("");
}

/// A flag is on exactly when its variable is set to `true` or `1`; any other value, or
/// no value, leaves it off.
pub proof fn lemma_flag_is_true_or_one(vars: Seq<(Seq<char>, Seq<char>)>, key: Seq<char>)
    ensures
        env_flag(vars, key) <==> (env_lookup(vars, key) == Some("true"@) || env_lookup(vars, key)
            == Some("1"@)),
        env_lookup(vars, key) is None ==> !env_flag(vars, key),
{
}

/// The other settings follow their variables: authentication is required exactly when
/// `VT_AUTH_MODE` is `required`; the session lifetime is `VT_SESSION_TTL` when that
/// reads as an integer and seven days otherwise; the local provider is on unless
/// `VT_AUTH_LOCAL_ENABLED` is `false` or `0`.
pub proof fn lemma_settings_follow_their_variables(vars: Seq<(Seq<char>, Seq<char>)>)
    ensures
        (mode_from(vars) == AuthMode::Required) <==> env_lookup(vars, "VT_AUTH_MODE"@) == Some(
            "required"@,
        ),
        (env_lookup(vars, "VT_SESSION_TTL"@) matches Some(v) && (parse_i64(v) matches Some(t)))
            ==> ttl_from(vars) == parse_i64(env_lookup(vars, "VT_SESSION_TTL"@)->0)->0,
        (env_lookup(vars, "VT_SESSION_TTL"@) is None || (env_lookup(vars, "VT_SESSION_TTL"@) matches Some(
            v,
        ) && parse_i64(v) is None)) ==> ttl_from(vars) == 604800,
        local_enabled_from(vars) <==> !(env_lookup(vars, "VT_AUTH_LOCAL_ENABLED"@) == Some("false"@)
            || env_lookup(vars, "VT_AUTH_LOCAL_ENABLED"@) == Some("0"@)),
{
}

/// An OIDC provider's settings are its variables' values: the name, issuer and client
/// id as set, the client secret or empty, and the scopes of its scope list (each
/// trimmed) or `openid`, `email` and `profile`.
pub proof fn lemma_oidc_settings_follow_their_variables(vars: Seq<(Seq<char>, Seq<char>)>, i: int)
    ensures
        env_lookup(vars, oidc_key(i, "NAME"@)) matches Some(v) ==> oidc_config_at(vars, i).name == v,
        env_lookup(vars, oidc_key(i, "ISSUER_URL"@)) matches Some(v) ==> oidc_config_at(vars, i).issuer_url
            == v,
        env_lookup(vars, oidc_key(i, "CLIENT_ID"@)) matches Some(v) ==> oidc_config_at(vars, i).client_id
            == v,
        env_lookup(vars, oidc_key(i, "CLIENT_SECRET"@)) matches Some(v) ==> oidc_config_at(
            vars,
            i,
        ).client_secret == v,
        env_lookup(vars, oidc_key(i, "CLIENT_SECRET"@)) is None ==> oidc_config_at(
            vars,
            i,
        ).client_secret.len() == 0,
        env_lookup(vars, oidc_key(i, "SCOPES"@)) matches Some(v) ==> oidc_config_at(vars, i).scopes
            == split_on(v, ',').map_values(|p: Seq<char>| trim(p)),
        env_lookup(vars, oidc_key(i, "SCOPES"@)) is None ==> oidc_config_at(vars, i).scopes
            == split_on("openid,email,profile"@, ',').map_values(|p: Seq<char>| trim(p)),
{
    reveal_strlit("");
}

} // verus!
