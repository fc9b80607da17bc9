//! Authentication: configuration, errors, tokens, sessions, cookies and providers.

use vibetown::auth::config::{parse_i64_exec, AuthConfig, AuthMode, LdapConfig, LocalAuthConfig};
use vibetown::auth::errors::AuthError;
use vibetown::auth::middleware::{
    extract_session_cookie, extract_session_from_headers, require_admin_gate, require_auth_gate,
    AuthGate,
};
use vibetown::auth::models::{User, UserRow, UserSessionRow, UtcInstant};
use vibetown::auth::providers::ldap::{LdapEntry, LdapProvider};
use vibetown::auth::providers::local::LocalProvider;
use vibetown::auth::providers::oidc::{
    discovery_url, OidcDiscovery, OidcProvider, PendingAuths, UserInfo,
};
use vibetown::auth::providers::AuthenticatedUser;
use vibetown::auth::service::{
    active_user, external_user_after_email_lookup, external_user_after_id_lookup,
    external_user_first_step, oidc_redirect_url, session_user, ExternalUserStep, UserAuthService,
};
use vibetown::auth::session::{
    check_session, encode, generate_token, hash_token, hex_encode, new_session, session_expiry,
};

fn vars(pairs: &[(&str, &str)]) -> Vec<(String, String)> {
    pairs.iter().map(|(k, v)| (k.to_string(), v.to_string())).collect()
}

fn row(is_active: i32, is_admin: i32, password_hash: Option<&str>) -> UserRow {
    UserRow {
        id: "u-1".to_string(),
        email: "ann@example.com".to_string(),
        username: Some("ann".to_string()),
        display_name: Some("Ann".to_string()),
        password_hash: password_hash.map(String::from),
        auth_provider: "local".to_string(),
        external_id: None,
        avatar_url: None,
        is_active,
        is_admin,
        created_at: "2024-01-01 00:00:00".to_string(),
        updated_at: "2024-01-02 00:00:00".to_string(),
        last_login_at: None,
    }
}

fn user(is_admin: bool) -> User {
    let mut u = User::from(row(1, 0, None));
    u.is_admin = is_admin;
    u
}

// ── Configuration ──

#[test]
fn config_defaults_from_empty_environment() {
    let c = AuthConfig::from_vars(&[]);
    assert!(matches!(c.mode, AuthMode::NotRequired));
    assert!(!c.auth_required());
    assert_eq!(c.session_ttl, 604800);
    assert!(c.local.enabled);
    assert!(c.oidc_providers.is_empty());
    assert!(!c.ldap.enabled);
    assert_eq!(c.ldap.user_filter, "(uid={username})");
    assert_eq!(c.ldap.attr_email, "mail");
    assert_eq!(c.ldap.attr_name, "cn");
    assert_eq!(c.ldap.attr_username, "uid");
}

#[test]
fn config_reads_mode_ttl_and_local_flag() {
    let c = AuthConfig::from_vars(&vars(&[
        ("VT_AUTH_MODE", "required"),
        ("VT_SESSION_TTL", "3600"),
        ("VT_AUTH_LOCAL_ENABLED", "0"),
    ]));
    assert!(c.auth_required());
    assert_eq!(c.session_ttl, 3600);
    assert!(!c.local.enabled);
}

#[test]
fn config_ignores_unknown_mode_and_bad_ttl() {
    let c = AuthConfig::from_vars(&vars(&[("VT_AUTH_MODE", "Required"), ("VT_SESSION_TTL", "1h")]));
    assert!(!c.auth_required());
    assert_eq!(c.session_ttl, 604800);
}

#[test]
fn config_reads_oidc_providers_in_order_and_skips_incomplete() {
    let c = AuthConfig::from_vars(&vars(&[
        ("VT_AUTH_OIDC_1_NAME", "google"),
        ("VT_AUTH_OIDC_1_ISSUER_URL", "https://accounts.google.com"),
        ("VT_AUTH_OIDC_1_CLIENT_ID", "cid"),
        ("VT_AUTH_OIDC_1_SCOPES", "openid, email"),
        ("VT_AUTH_OIDC_2_NAME", "broken"),
        ("VT_AUTH_OIDC_3_NAME", "okta"),
        ("VT_AUTH_OIDC_3_ISSUER_URL", "https://okta.example"),
        ("VT_AUTH_OIDC_3_CLIENT_ID", "oid"),
        ("VT_AUTH_OIDC_3_CLIENT_SECRET", "s3"),
    ]));
    assert_eq!(c.oidc_providers.len(), 2);
    assert_eq!(c.oidc_providers[0].name, "google");
    assert_eq!(c.oidc_providers[0].client_secret, "");
    assert_eq!(c.oidc_providers[0].scopes, vec!["openid".to_string(), "email".to_string()]);
    assert_eq!(c.oidc_providers[1].name, "okta");
    assert_eq!(c.oidc_providers[1].client_secret, "s3");
    assert_eq!(
        c.oidc_providers[1].scopes,
        vec!["openid".to_string(), "email".to_string(), "profile".to_string()]
    );
}

#[test]
fn config_oidc_numbering_stops_at_first_missing_name() {
    let c = AuthConfig::from_vars(&vars(&[
        ("VT_AUTH_OIDC_2_NAME", "second"),
        ("VT_AUTH_OIDC_2_ISSUER_URL", "https://two"),
        ("VT_AUTH_OIDC_2_CLIENT_ID", "two"),
    ]));
    assert!(c.oidc_providers.is_empty());
}

#[test]
fn config_reads_ldap_when_enabled() {
    let c = AuthConfig::from_vars(&vars(&[
        ("VT_AUTH_LDAP_ENABLED", "true"),
        ("VT_AUTH_LDAP_URL", "ldap://dir"),
        ("VT_AUTH_LDAP_BIND_DN_TEMPLATE", "uid={username},dc=example"),
        ("VT_AUTH_LDAP_TLS", "1"),
    ]));
    assert!(c.ldap.enabled);
    assert_eq!(c.ldap.url, "ldap://dir");
    assert_eq!(c.ldap.bind_dn_template, "uid={username},dc=example");
    assert!(c.ldap.use_tls);
    assert!(!c.ldap.use_starttls);
    assert_eq!(c.ldap.attr_email, "mail");
}

#[test]
fn ldap_settings_are_ignored_while_disabled() {
    let c = AuthConfig::from_vars(&vars(&[("VT_AUTH_LDAP_URL", "ldap://dir")]));
    assert!(!c.ldap.enabled);
    assert_eq!(c.ldap.url, "");
}

#[test]
fn parse_i64_accepts_what_str_parse_accepts() {
    assert_eq!(parse_i64_exec("42"), Some(42));
    assert_eq!(parse_i64_exec("+7"), Some(7));
    assert_eq!(parse_i64_exec("-9223372036854775808"), Some(i64::MIN));
    assert_eq!(parse_i64_exec("9223372036854775807"), Some(i64::MAX));
    assert_eq!(parse_i64_exec("9223372036854775808"), None);
    assert_eq!(parse_i64_exec(""), None);
    assert_eq!(parse_i64_exec("-"), None);
    assert_eq!(parse_i64_exec(" 1"), None);
    assert_eq!(parse_i64_exec("1e3"), None);
}

// ── Errors ──

#[test]
fn errors_have_their_status_codes() {
    assert_eq!(AuthError::InvalidCredentials.status_code(), 401);
    assert_eq!(AuthError::AccountDisabled.status_code(), 403);
    assert_eq!(AuthError::SessionExpired.status_code(), 401);
    assert_eq!(AuthError::UserNotFound.status_code(), 404);
    assert_eq!(AuthError::UserAlreadyExists.status_code(), 409);
    assert_eq!(AuthError::ProviderNotConfigured.status_code(), 400);
    assert_eq!(AuthError::Oidc("x".to_string()).status_code(), 502);
    assert_eq!(AuthError::Database("x".to_string()).status_code(), 500);
}

#[test]
fn errors_have_their_messages() {
    assert_eq!(AuthError::InvalidCredentials.message(), "Invalid credentials");
    assert_eq!(AuthError::NotSupported.message(), "Operation not supported by this provider");
    assert_eq!(AuthError::Ldap("down".to_string()).message(), "LDAP error: down");
    assert_eq!(AuthError::Internal("oops".to_string()).message(), "Internal error: oops");
}

// ── Tokens and sessions ──

#[test]
fn hex_encoding_is_lower_case_two_digits_per_byte() {
    assert_eq!(hex_encode(&[0x00, 0x0f, 0xa5, 0xff]), "000fa5ff");
    assert_eq!(encode(&[]), "");
    assert_eq!(encode(&[1, 2, 254]), "0102fe");
}

#[test]
fn token_hash_is_sha256_hex() {
    assert_eq!(
        hash_token("abc"),
        "ba7816bf8f01cfea414140de5dae2223b00361a396177a9cb410ff61f20015ad"
    );
    assert_eq!(hash_token("abc"), hash_token("abc"));
    assert_ne!(hash_token("abc"), hash_token("abd"));
}

#[test]
fn generated_tokens_are_64_hex_digits_and_differ() {
    let a = generate_token();
    let b = generate_token();
    assert_eq!(a.len(), 64);
    assert!(a.chars().all(|c| c.is_ascii_digit() || ('a'..='f').contains(&c)));
    assert_ne!(a, b);
}

#[test]
fn new_session_expires_ttl_seconds_after_creation() {
    let s = new_session(3600).unwrap();
    assert_eq!(s.expires_at.secs, s.created_at.secs + 3600);
    assert_eq!(s.token.len(), 64);
    assert_eq!(s.token_hash, hash_token(&s.token));
    assert_eq!(s.session_id.len(), 36);
    assert!(s.expires_at_text.ends_with("+00:00"));
}

fn session_row(expires_at: &str, revoked: i32) -> UserSessionRow {
    UserSessionRow {
        id: "s-1".to_string(),
        user_id: "u-1".to_string(),
        token_hash: "h".to_string(),
        expires_at: expires_at.to_string(),
        last_used_at: None,
        revoked,
    }
}

#[test]
fn check_session_accepts_an_unexpired_session() {
    let now = UtcInstant { secs: 1_700_000_000, nanos: 0 };
    let s = check_session(session_row("2023-11-14T22:13:21+00:00", 0), now).unwrap();
    assert_eq!(s.id, "s-1");
    assert_eq!(s.user_id, "u-1");
    assert_eq!(s.expires_at.secs, 1_700_000_001);
    assert!(!s.revoked);
}

#[test]
fn check_session_refuses_expired_revoked_and_unreadable() {
    let now = UtcInstant { secs: 1_700_000_000, nanos: 0 };
    assert!(matches!(
        check_session(session_row("2023-11-14T22:13:19+00:00", 0), now),
        Err(AuthError::SessionExpired)
    ));
    assert!(matches!(
        check_session(session_row("2099-01-01T00:00:00+00:00", 1), now),
        Err(AuthError::SessionRevoked)
    ));
    match check_session(session_row("tomorrow", 0), now) {
        Err(AuthError::Internal(m)) => assert!(m.starts_with("Invalid expiry date: ")),
        _ => panic!("expected an internal error"),
    }
}

#[test]
fn check_session_at_the_expiry_instant_is_still_valid() {
    let now = UtcInstant { secs: 1_700_000_000, nanos: 0 };
    assert!(check_session(session_row("2023-11-14T22:13:20+00:00", 0), now).is_ok());
}

// ── Cookies and middleware ──

#[test]
fn session_cookie_is_found_among_others() {
    assert_eq!(
        extract_session_cookie(Some("theme=dark; vt_session=abc123; lang=en")),
        Some("abc123".to_string())
    );
    assert_eq!(extract_session_from_headers(Some("vt_session=x")), Some("x".to_string()));
}

#[test]
fn empty_or_missing_session_cookie_is_none() {
    assert_eq!(extract_session_cookie(None), None);
    assert_eq!(extract_session_cookie(Some("theme=dark")), None);
    assert_eq!(extract_session_cookie(Some("vt_session=; other=1")), None);
    assert_eq!(
        extract_session_cookie(Some("vt_session=; vt_session=second")),
        Some("second".to_string())
    );
}

#[test]
fn auth_gate_decisions() {
    assert!(matches!(require_auth_gate(false, None), AuthGate::Pass));
    match require_auth_gate(true, None) {
        AuthGate::Refuse(code, text) => {
            assert_eq!(code, 401);
            assert_eq!(text, "Authentication required");
        }
        _ => panic!("expected a refusal"),
    }
    match require_auth_gate(true, Some("t".to_string())) {
        AuthGate::CheckToken(t) => assert_eq!(t, "t"),
        _ => panic!("expected a token check"),
    }
}

#[test]
fn admin_gate_decisions() {
    let admin = user(true);
    let plain = user(false);
    assert!(require_admin_gate(false, None).is_ok());
    assert!(require_admin_gate(true, Some(&admin)).is_ok());
    assert_eq!(
        require_admin_gate(true, Some(&plain)).unwrap_err(),
        (403, "Admin access required".to_string())
    );
    assert_eq!(
        require_admin_gate(true, None).unwrap_err(),
        (401, "Authentication required".to_string())
    );
}

// ── Users ──

#[test]
fn user_from_row_converts_flags() {
    let u = User::from(row(1, 1, Some("hash")));
    assert!(u.is_active);
    assert!(u.is_admin);
    assert_eq!(u.email, "ann@example.com");
    let v = User::from(row(0, 0, None));
    assert!(!v.is_active);
    assert!(!v.is_admin);
}

#[test]
fn local_provider_checks_in_order() {
    let on = LocalProvider::new(LocalAuthConfig { enabled: true });
    let off = LocalProvider::new(LocalAuthConfig { enabled: false });
    assert!(matches!(
        off.password_hash_to_check(&Some(row(1, 0, Some("h")))),
        Err(AuthError::ProviderNotConfigured)
    ));
    assert!(matches!(on.password_hash_to_check(&None), Err(AuthError::InvalidCredentials)));
    assert!(matches!(
        on.password_hash_to_check(&Some(row(0, 0, Some("h")))),
        Err(AuthError::AccountDisabled)
    ));
    assert!(matches!(
        on.password_hash_to_check(&Some(row(1, 0, None))),
        Err(AuthError::InvalidCredentials)
    ));
    assert_eq!(on.password_hash_to_check(&Some(row(1, 0, Some("h")))).unwrap(), "h");
    assert!(matches!(
        LocalProvider::finish_authentication(row(1, 0, Some("h")), false),
        Err(AuthError::InvalidCredentials)
    ));
    assert_eq!(LocalProvider::finish_authentication(row(1, 0, Some("h")), true).unwrap().id, "u-1");
}

#[test]
fn active_and_session_users() {
    assert!(matches!(active_user(row(0, 0, None)), Err(AuthError::AccountDisabled)));
    assert_eq!(active_user(row(1, 0, None)).unwrap().id, "u-1");
    assert!(matches!(session_user(None), Err(AuthError::UserNotFound)));
    let mut inactive = user(false);
    inactive.is_active = false;
    assert!(matches!(session_user(Some(inactive)), Err(AuthError::AccountDisabled)));
    assert_eq!(session_user(Some(user(false))).unwrap().id, "u-1");
}

fn external(ext: Option<&str>) -> AuthenticatedUser {
    AuthenticatedUser {
        email: "bo@example.com".to_string(),
        username: Some("bo".to_string()),
        display_name: None,
        external_id: ext.map(String::from),
        avatar_url: None,
        provider: "oidc".to_string(),
    }
}

#[test]
fn external_users_are_found_by_id_then_email_then_created() {
    match external_user_first_step(&external(Some("sub-1"))) {
        ExternalUserStep::QueryByExternalId { provider, external_id } => {
            assert_eq!(provider, "oidc");
            assert_eq!(external_id, "sub-1");
        }
        _ => panic!("expected a lookup by external id"),
    }
    match external_user_first_step(&external(None)) {
        ExternalUserStep::QueryByEmail { email } => assert_eq!(email, "bo@example.com"),
        _ => panic!("expected a lookup by email"),
    }
    match external_user_after_id_lookup(&external(Some("sub-1")), None) {
        ExternalUserStep::QueryByEmail { email } => assert_eq!(email, "bo@example.com"),
        _ => panic!("expected a lookup by email"),
    }
    match external_user_after_email_lookup(&external(Some("sub-1")), None) {
        ExternalUserStep::Create(c) => {
            assert_eq!(c.email, "bo@example.com");
            assert_eq!(c.auth_provider, "oidc");
            assert_eq!(c.external_id, Some("sub-1".to_string()));
            assert!(c.password.is_none());
            assert!(!c.is_admin);
        }
        _ => panic!("expected a creation"),
    }
    match external_user_after_email_lookup(&external(None), Some(row(0, 0, None))) {
        ExternalUserStep::Done(Err(AuthError::AccountDisabled)) => {}
        _ => panic!("expected a disabled account"),
    }
}

// ── Providers ──

fn ldap_config() -> LdapConfig {
    let mut c = AuthConfig::from_vars(&vars(&[
        ("VT_AUTH_LDAP_ENABLED", "true"),
        ("VT_AUTH_LDAP_BIND_DN_TEMPLATE", "uid={username},ou=people"),
    ]))
    .ldap;
    c.user_filter = "(&(uid={username})(mail={username}*))".to_string();
    c
}

#[test]
fn ldap_names_and_filters_substitute_every_placeholder() {
    let p = LdapProvider::new(ldap_config());
    assert!(p.enabled());
    assert_eq!(p.bind_dn("ann"), "uid=ann,ou=people");
    assert_eq!(p.search_filter("ann"), "(&(uid=ann)(mail=ann*))");
    assert_eq!(p.search_attributes(), vec!["mail".to_string(), "cn".to_string(), "uid".to_string()]);
}

#[test]
fn ldap_bind_results_and_search_entries() {
    assert!(LdapProvider::check_bind_result(0).is_ok());
    assert!(matches!(LdapProvider::check_bind_result(49), Err(AuthError::InvalidCredentials)));
    let p = LdapProvider::new(ldap_config());
    match p.user_from_search(vec![]) {
        Err(AuthError::Ldap(m)) => assert_eq!(m, "User not found in LDAP"),
        _ => panic!("expected not found"),
    }
    let entry = LdapEntry {
        dn: "uid=ann,ou=people".to_string(),
        attrs: vec![
            ("cn".to_string(), vec!["Ann A".to_string()]),
            ("mail".to_string(), vec!["ann@example.com".to_string(), "a2@example.com".to_string()]),
        ],
    };
    let u = p.user_from_search(vec![entry]).unwrap();
    assert_eq!(u.email, "ann@example.com");
    assert_eq!(u.display_name, Some("Ann A".to_string()));
    assert_eq!(u.username, None);
    assert_eq!(u.external_id, Some("uid=ann,ou=people".to_string()));
    assert_eq!(u.provider, "ldap");
    let no_mail = LdapEntry { dn: "x".to_string(), attrs: vec![] };
    match p.user_from_search(vec![no_mail]) {
        Err(AuthError::Ldap(m)) => assert_eq!(m, "Email attribute not found in LDAP entry"),
        _ => panic!("expected a missing email"),
    }
}

#[test]
fn disabled_ldap_provider_is_not_configured() {
    let p = LdapProvider::new(AuthConfig::from_vars(&[]).ldap);
    assert!(!p.enabled());
    assert!(matches!(p.check_enabled(), Err(AuthError::ProviderNotConfigured)));
}

#[test]
fn oidc_addresses() {
    assert_eq!(
        discovery_url("https://issuer.example//"),
        "https://issuer.example/.well-known/openid-configuration"
    );
    assert_eq!(
        oidc_redirect_url("http://localhost:3000/", "my idp"),
        "http://localhost:3000/api/auth/oidc/my%20idp/callback"
    );
}

#[test]
fn oidc_user_needs_an_email() {
    let info = UserInfo {
        sub: "sub-9".to_string(),
        email: None,
        name: None,
        preferred_username: None,
        picture: None,
    };
    assert!(matches!(
        vibetown::auth::providers::oidc::OidcProvider::user_from_info(info),
        Err(AuthError::Oidc(_))
    ));
}

#[test]
fn pending_state_is_taken_once() {
    let mut p = PendingAuths::new();
    p.insert("state-1".to_string(), "verifier-1".to_string());
    assert_eq!(p.take("state-1"), Some("verifier-1".to_string()));
    assert_eq!(p.take("state-1"), None);
    assert_eq!(p.take("never"), None);
}

#[test]
fn service_lists_enabled_providers_in_order() {
    let s = UserAuthService::new(AuthConfig::from_vars(&vars(&[("VT_AUTH_LDAP_ENABLED", "1")])));
    let names: Vec<String> = s.list_providers().into_iter().map(|p| p.provider_type).collect();
    assert_eq!(names, vec!["local".to_string(), "ldap".to_string()]);
    let t = UserAuthService::new(AuthConfig::from_vars(&vars(&[("VT_AUTH_LOCAL_ENABLED", "false")])));
    assert!(t.list_providers().is_empty());
    assert!(matches!(t.find_oidc_provider("google"), Err(AuthError::ProviderNotConfigured)));
    assert!(UserAuthService::has_users(1));
    assert!(!UserAuthService::has_users(0));
}

#[test]
fn session_expiry_is_ttl_after_creation_in_rfc3339() {
    let now = UtcInstant { secs: 1_700_000_000, nanos: 0 };
    let (at, text) = session_expiry(now, 1).unwrap();
    assert_eq!(at, UtcInstant { secs: 1_700_000_001, nanos: 0 });
    assert_eq!(text, "2023-11-14T22:13:21+00:00");
}

#[test]
fn unrepresentable_session_expiry_is_an_internal_error() {
    let late = UtcInstant { secs: i64::MAX, nanos: 0 };
    match session_expiry(late, 1) {
        Err(AuthError::Internal(m)) => assert_eq!(m, "session expiry out of range"),
        _ => panic!("expected an internal error"),
    }
    let far = UtcInstant { secs: 100_000_000_000_000_000, nanos: 0 };
    assert!(matches!(session_expiry(far, 0), Err(AuthError::Internal(_))));
}

fn oidc_service() -> UserAuthService {
    let config = AuthConfig::from_vars(&vars(&[
        ("VT_AUTH_OIDC_1_NAME", "google"),
        ("VT_AUTH_OIDC_1_ISSUER_URL", "https://accounts.example"),
        ("VT_AUTH_OIDC_1_CLIENT_ID", "client id"),
    ]));
    let provider_config = config.oidc_providers[0].clone();
    let mut service = UserAuthService::new(config);
    let discovery = OidcDiscovery {
        authorization_endpoint: "https://accounts.example/auth".to_string(),
        token_endpoint: "https://accounts.example/token".to_string(),
        userinfo_endpoint: None,
    };
    let redirect = oidc_redirect_url("https://town.example", "google");
    service.add_oidc_provider(OidcProvider::new(provider_config, discovery, redirect));
    service
}

#[test]
fn oidc_state_is_accepted_once() {
    let mut service = oidc_service();
    let (url, state) = service.oidc_authorization_url("google").unwrap();
    assert_eq!(state.len(), 22);
    assert!(state.chars().all(|c| c.is_ascii_alphanumeric() || c == '-' || c == '_'));
    assert!(url.starts_with("https://accounts.example/auth?response_type=code&client_id=client%20id&redirect_uri=https%3A%2F%2Ftown.example%2Fapi%2Fauth%2Foidc%2Fgoogle%2Fcallback&scope=openid%20email%20profile&state="));
    assert!(url.ends_with("&code_challenge_method=S256"));
    let (i, verifier) = service.oidc_take_pending("google", &state).unwrap();
    assert_eq!(i, 0);
    assert_eq!(verifier.len(), 43);
    match service.oidc_take_pending("google", &state) {
        Err(AuthError::Oidc(m)) => assert_eq!(m, "Invalid or expired OIDC state"),
        _ => panic!("a state is accepted once"),
    }
    assert!(matches!(
        service.oidc_take_pending("github", &state),
        Err(AuthError::ProviderNotConfigured)
    ));
    assert!(matches!(
        service.oidc_authorization_url("github"),
        Err(AuthError::ProviderNotConfigured)
    ));
}

#[test]
fn oidc_token_request_and_missing_userinfo() {
    let service = oidc_service();
    let p = service.oidc_provider(0);
    assert_eq!(p.provider_name(), "google");
    assert_eq!(p.token_endpoint(), "https://accounts.example/token");
    assert_eq!(
        p.token_request_body("a b", "v"),
        "grant_type=authorization_code&code=a%20b&redirect_uri=https%3A%2F%2Ftown.example%2Fapi%2Fauth%2Foidc%2Fgoogle%2Fcallback&client_id=client%20id&client_secret=&code_verifier=v"
    );
    match p.userinfo_endpoint() {
        Err(AuthError::Oidc(m)) => assert_eq!(m, "No userinfo endpoint"),
        _ => panic!("expected a missing endpoint"),
    }
}

#[test]
fn provider_failures_name_what_failed() {
    match AuthError::oidc_failure("Token exchange failed", "timeout") {
        AuthError::Oidc(m) => assert_eq!(m, "Token exchange failed: timeout"),
        _ => panic!("expected an OIDC error"),
    }
    match AuthError::ldap_failure("LDAP bind failed", "refused") {
        AuthError::Ldap(m) => assert_eq!(m, "LDAP bind failed: refused"),
        _ => panic!("expected an LDAP error"),
    }
}

#[test]
fn at_most_ten_oidc_providers_are_read() {
    let mut pairs: Vec<(String, String)> = Vec::new();
    for i in 1..=11 {
        pairs.push((format!("VT_AUTH_OIDC_{i}_NAME"), format!("p{i}")));
        pairs.push((format!("VT_AUTH_OIDC_{i}_ISSUER_URL"), "https://issuer".to_string()));
        pairs.push((format!("VT_AUTH_OIDC_{i}_CLIENT_ID"), "cid".to_string()));
    }
    let c = AuthConfig::from_vars(&pairs);
    assert_eq!(c.oidc_providers.len(), 10);
    assert_eq!(c.oidc_providers[9].name, "p10");
}

#[test]
fn a_new_session_reads_back_until_it_expires() {
    let s = new_session(3600).unwrap();
    let row = UserSessionRow {
        id: s.session_id.clone(),
        user_id: "u-1".to_string(),
        token_hash: s.token_hash.clone(),
        expires_at: s.expires_at_text.clone(),
        last_used_at: None,
        revoked: 0,
    };
    let checked = check_session(row, s.created_at).unwrap();
    assert_eq!(checked.expires_at, s.expires_at);
    assert_eq!(checked.id, s.session_id);
    let at_expiry = UserSessionRow {
        id: s.session_id.clone(),
        user_id: "u-1".to_string(),
        token_hash: s.token_hash.clone(),
        expires_at: s.expires_at_text.clone(),
        last_used_at: None,
        revoked: 0,
    };
    assert!(check_session(at_expiry, s.expires_at).is_ok());
    let revoked = UserSessionRow {
        id: s.session_id,
        user_id: "u-1".to_string(),
        token_hash: s.token_hash,
        expires_at: s.expires_at_text,
        last_used_at: None,
        revoked: 1,
    };
    assert!(matches!(check_session(revoked, s.created_at), Err(AuthError::SessionRevoked)));
}

#[test]
fn service_keeps_the_ldap_configuration() {
    let s = UserAuthService::new(AuthConfig::from_vars(&vars(&[
        ("VT_AUTH_LDAP_ENABLED", "1"),
        ("VT_AUTH_LDAP_URL", "ldap://dir"),
        ("VT_AUTH_LDAP_BIND_DN_TEMPLATE", "uid={username},ou=people"),
        ("VT_SESSION_TTL", "60"),
    ])));
    assert_eq!(s.ldap_provider().url(), "ldap://dir");
    assert_eq!(s.ldap_provider().bind_dn("ann"), "uid=ann,ou=people");
    assert_eq!(s.config().session_ttl, 60);
}

#[test]
fn a_session_with_no_lifetime_is_always_created() {
    let s = new_session(0).unwrap();
    assert_eq!(s.expires_at, s.created_at);
    let b = s.session_id.as_bytes();
    assert_eq!(b.len(), 36);
    assert_eq!(b[14], b'4');
}
