//! Authentication errors, their HTTP status codes and their messages.
use vstd::prelude::*;

use crate::text::{concat2, concat3, has_prefix, has_suffix, owned};

verus! {

/// Errors of authentication and user management.
#[derive(Debug, Clone)]
pub enum AuthError {
    InvalidCredentials,
    AccountDisabled,
    SessionExpired,
    SessionRevoked,
    Unauthorized,
    Forbidden,
    UserNotFound,
    UserAlreadyExists,
    ProviderNotConfigured,
    NotSupported,
    Oidc(String),
    Ldap(String),
    /// A database failure, with the database driver's message.
    Database(String),
    Internal(String),
}

/// The HTTP status with which an error is answered.
pub open spec fn status_of(e: AuthError) -> u16 {
    match e {
        AuthError::InvalidCredentials => 401,
        AuthError::AccountDisabled => 403,
        AuthError::SessionExpired => 401,
        AuthError::SessionRevoked => 401,
        AuthError::Unauthorized => 401,
        AuthError::Forbidden => 403,
        AuthError::UserNotFound => 404,
        AuthError::UserAlreadyExists => 409,
        AuthError::ProviderNotConfigured => 400,
        AuthError::NotSupported => 400,
        AuthError::Oidc(_) => 502,
        AuthError::Ldap(_) => 502,
        AuthError::Database(_) => 500,
        AuthError::Internal(_) => 500,
    }
}

/// The text of an error, as its display writes it.
pub open spec fn message_of(e: AuthError) -> Seq<char> {
    match e {
        AuthError::InvalidCredentials => "Invalid credentials"@,
        AuthError::AccountDisabled => "Account is disabled"@,
        AuthError::SessionExpired => "Session expired"@,
        AuthError::SessionRevoked => "Session revoked"@,
        AuthError::Unauthorized => "Unauthorized"@,
        AuthError::Forbidden => "Forbidden"@,
        AuthError::UserNotFound => "User not found"@,
        AuthError::UserAlreadyExists => "User already exists"@,
        AuthError::ProviderNotConfigured => "Provider not configured"@,
        AuthError::NotSupported => "Operation not supported by this provider"@,
        AuthError::Oidc(m) => "OIDC error: "@ + m@,
        AuthError::Ldap(m) => "LDAP error: "@ + m@,
        AuthError::Database(m) => "Database error: "@ + m@,
        AuthError::Internal(m) => "Internal error: "@ + m@,
    }
}

impl AuthError {
    /// The HTTP status code of the response that reports this error.
    pub fn status_code(&self) -> (code: u16)
        ensures
            code == status_of(*self),
    {
        match self {
            AuthError::InvalidCredentials => 401,
            AuthError::AccountDisabled => 403,
            AuthError::SessionExpired => 401,
            AuthError::SessionRevoked => 401,
            AuthError::Unauthorized => 401,
            AuthError::Forbidden => 403,
            AuthError::UserNotFound => 404,
            AuthError::UserAlreadyExists => 409,
            AuthError::ProviderNotConfigured => 400,
            AuthError::NotSupported => 400,
            AuthError::Oidc(_) => 502,
            AuthError::Ldap(_) => 502,
            AuthError::Database(_) => 500,
            AuthError::Internal(_) => 500,
        }
    }

    /// The text of the error.
    pub fn message(&self) -> (res: String)
        ensures
            res@ == message_of(*self),
    {
        match self {
            AuthError::InvalidCredentials => owned("Invalid credentials"),
            AuthError::AccountDisabled => owned("Account is disabled"),
            AuthError::SessionExpired => owned("Session expired"),
            AuthError::SessionRevoked => owned("Session revoked"),
            AuthError::Unauthorized => owned("Unauthorized"),
            AuthError::Forbidden => owned("Forbidden"),
            AuthError::UserNotFound => owned("User not found"),
            AuthError::UserAlreadyExists => owned("User already exists"),
            AuthError::ProviderNotConfigured => owned("Provider not configured"),
            AuthError::NotSupported => owned("Operation not supported by this provider"),
            AuthError::Oidc(m) => concat2("OIDC error: ", m.as_str()),
            AuthError::Ldap(m) => concat2("LDAP error: ", m.as_str()),
            AuthError::Database(m) => concat2("Database error: ", m.as_str()),
            AuthError::Internal(m) => concat2("Internal error: ", m.as_str()),
        }
    }
}

impl AuthError {
    /// An OIDC failure: what failed, a colon, and the cause (such as
    /// `Token exchange failed: timeout`).
    pub fn oidc_failure(what: &str, cause: &str) -> (e: AuthError)
        ensures
            e matches AuthError::Oidc(m) && m@ == what@ + ": "@ + cause@,
    {
        AuthError::Oidc(concat3(what, ": ", cause))
    }

    /// An LDAP failure: what failed, a colon, and the cause (such as
    /// `LDAP bind failed: timeout`).
    pub fn ldap_failure(what: &str, cause: &str) -> (e: AuthError)
        ensures
            e matches AuthError::Ldap(m) && m@ == what@ + ": "@ + cause@,
    {
        AuthError::Ldap(concat3(what, ": ", cause))
    }
}

/// Every error is answered with a client error (4xx) or a server/gateway error (5xx):
/// errors of credentials and sessions with 401, a disabled account or a forbidden
/// action with 403, a missing user with 404, an existing one with 409, a provider that
/// is not configured or an unsupported operation with 400, a failure of the OIDC or
/// LDAP server with 502, and database and internal failures with 500.
pub proof fn lemma_status_classes(e: AuthError)
    ensures
        400 <= status_of(e) < 600,
        (e is InvalidCredentials || e is SessionExpired || e is SessionRevoked
            || e is Unauthorized) ==> status_of(e) == 401,
        (e is Database || e is Internal) ==> status_of(e) == 500,
        (e is AccountDisabled || e is Forbidden) ==> status_of(e) == 403,
        e is UserNotFound ==> status_of(e) == 404,
        e is UserAlreadyExists ==> status_of(e) == 409,
        (e is ProviderNotConfigured || e is NotSupported) ==> status_of(e) == 400,
        (e is Oidc || e is Ldap) ==> status_of(e) == 502,
{
}

/// The message of an error that carries a cause begins with a label that says where
/// it came from and ends with that cause.
pub proof fn lemma_message_ends_with_the_cause(e: AuthError)
    ensures
        e matches AuthError::Oidc(m) ==> has_prefix(message_of(e), "OIDC error: "@) && has_suffix(
            message_of(e),
            m@,
        ),
        e matches AuthError::Ldap(m) ==> has_prefix(message_of(e), "LDAP error: "@) && has_suffix(
            message_of(e),
            m@,
        ),
        e matches AuthError::Database(m) ==> has_prefix(message_of(e), "Database error: "@)
            && has_suffix(message_of(e), m@),
        e matches AuthError::Internal(m) ==> has_prefix(message_of(e), "Internal error: "@)
            && has_suffix(message_of(e), m@),
{
    match e {
        AuthError::Oidc(m) => lemma_label_then_cause("OIDC error: "@, m@),
        AuthError::Ldap(m) => lemma_label_then_cause("LDAP error: "@, m@),
        AuthError::Database(m) => lemma_label_then_cause("Database error: "@, m@),
        AuthError::Internal(m) => lemma_label_then_cause("Internal error: "@, m@),
        _ => {},
    }
}

proof fn lemma_label_then_cause(label: Seq<char>, cause: Seq<char>)
    ensures
        has_prefix(label + cause, label),
        has_suffix(label + cause, cause),
{
    assert((label + cause).take(label.len() as int) =~= label);
    assert((label + cause).skip((label + cause).len() - cause.len()) =~= cause);
}

} // verus!
