//! The email-and-password provider.
use vstd::prelude::*;

use crate::auth::config::LocalAuthConfig;
use crate::auth::errors::AuthError;
use crate::auth::models::{user_of_row, User, UserRow};
use crate::auth::providers::{AuthProvider, ProviderInfo};
use crate::text::owned;

verus! {

/// Authenticates users by email and password against the stored password hashes.
#[derive(Debug, Clone)]
pub struct LocalProvider {
    config: LocalAuthConfig,
}

impl LocalProvider {
    /// Whether the provider is enabled.
    pub closed spec fn is_enabled(&self) -> bool {
        self.config.enabled
    }

    /// A provider with the given configuration.
    pub fn new(config: LocalAuthConfig) -> (p: Self)
        ensures
            p.is_enabled() == config.enabled,
    {
        LocalProvider { config }
    }

    /// Whether the provider is enabled.
    pub fn enabled(&self) -> (b: bool)
        ensures
            b == self.is_enabled(),
    {
        self.config.enabled
    }

    /// A disabled provider refuses every attempt, before anything is looked up.
    pub fn check_enabled(&self) -> (res: Result<(), AuthError>)
        ensures
            self.is_enabled() <==> res is Ok,
            res is Err ==> res matches Err(AuthError::ProviderNotConfigured),
    {
        if !self.config.enabled {
            return Err(AuthError::ProviderNotConfigured);
        }
        Ok(())
    }

    /// The first half of authenticating: given the stored user found for the email, if
    /// any, the password hash to check the password against. A disabled provider,
    /// an unknown email, a disabled account and an account without a password are
    /// refused, in that order.
    pub fn password_hash_to_check(&self, row: &Option<UserRow>) -> (res: Result<String, AuthError>)
        ensures
            !self.is_enabled() ==> res matches Err(AuthError::ProviderNotConfigured),
            self.is_enabled() ==> match row {
                None => res matches Err(AuthError::InvalidCredentials),
                Some(r) => if r.is_active == 0 {
                    res matches Err(AuthError::AccountDisabled)
                } else {
                    match r.password_hash {
                        None => res matches Err(AuthError::InvalidCredentials),
                        Some(h) => res matches Ok(x) && x == h,
                    }
                },
            },
    {
        if !self.config.enabled {
            return Err(AuthError::ProviderNotConfigured);
        }
        match row {
            None => Err(AuthError::InvalidCredentials),
            Some(r) => {
                if r.is_active == 0 {
                    return Err(AuthError::AccountDisabled);
                }
                match &r.password_hash {
                    None => Err(AuthError::InvalidCredentials),
                    Some(h) => Ok(h.clone()),
                }
            },
        }
    }

    /// The second half of authenticating: the user, when the password matched the hash.
    pub fn finish_authentication(row: UserRow, password_matches: bool) -> (res: Result<User, AuthError>)
        ensures
            !password_matches ==> res matches Err(AuthError::InvalidCredentials),
            password_matches ==> (res matches Ok(u) && u == user_of_row(row)),
    {
        if !password_matches {
            return Err(AuthError::InvalidCredentials);
        }
        Ok(User::from(row))
    }
}

impl AuthProvider for LocalProvider {
    fn provider_type(&self) -> (s: &str)
        ensures
            s@ == "local"@,
    {
        "local"
    }

    fn name(&self) -> (s: &str)
        ensures
            s@ == "Local"@,
    {
        "Local"
    }

    fn info(&self) -> (i: ProviderInfo)
        ensures
            i.name@ == "Local"@,
            i.provider_type@ == "local"@,
            i.enabled == self.is_enabled(),
    {
        ProviderInfo { name: owned("Local"), provider_type: owned("local"), enabled: self.config.enabled }
    }
}

} // verus!
