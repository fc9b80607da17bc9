pub mod ldap;
pub mod local;
pub mod oidc;

use vstd::prelude::*;

verus! {

/// Credentials submitted by the user for authentication.
#[derive(Debug, Clone)]
pub enum AuthCredentials {
    Password { email: String, password: String },
    LdapBind { username: String, password: String },
}

/// Information about a successfully authenticated user from a provider.
#[derive(Debug, Clone)]
pub struct AuthenticatedUser {
    pub email: String,
    pub username: Option<String>,
    pub display_name: Option<String>,
    pub external_id: Option<String>,
    pub avatar_url: Option<String>,
    pub provider: String,
}

/// Info about an auth provider exposed to the frontend.
#[derive(Debug, Clone)]
pub struct ProviderInfo {
    pub name: String,
    pub provider_type: String,
    pub enabled: bool,
}

/// The content of a provider's description.
pub struct ProviderInfoView {
    pub name: Seq<char>,
    pub provider_type: Seq<char>,
    pub enabled: bool,
}

impl View for ProviderInfo {
    type V = ProviderInfoView;

    open spec fn view(&self) -> ProviderInfoView {
        ProviderInfoView { name: self.name@, provider_type: self.provider_type@, enabled: self.enabled }
    }
}

/// What each authentication provider tells about itself.
pub trait AuthProvider {
    /// The kind of provider: `local`, `oidc` or `ldap`.
    fn provider_type(&self) -> &str;

    /// The name under which the provider is shown.
    fn name(&self) -> &str;

    /// The provider's description for the frontend.
    fn info(&self) -> ProviderInfo;
}

} // verus!
