//! The authentication service: its providers, the OIDC flows it runs, and the
//! decisions of signing in, of provisioning users from external providers, and of
//! validating sessions. Storage is the caller's: each decision takes what the
//! database returned.
use vstd::prelude::*;

use crate::auth::config::{AuthConfig, AuthMode, LdapConfigView, OidcProviderConfigView};
use crate::auth::errors::AuthError;
use crate::auth::models::{user_of_row, CreateUser, User, UserRow};
use crate::auth::providers::ldap::LdapProvider;
use crate::auth::providers::local::LocalProvider;
use crate::auth::providers::oidc::{authorization_url_text, code_challenge_of, enc, OidcProvider};
use crate::auth::providers::{AuthProvider, AuthenticatedUser, ProviderInfo, ProviderInfoView};
use crate::external::{base64url_nopad, url_encode};
use crate::text::{has_prefix, has_suffix, chars_of, owned, push_str, str_eq, string_of, trim_end_char, trim_end_char_chars};

verus! {

/// The description of the local provider.
pub open spec fn local_info(enabled: bool) -> ProviderInfoView {
    ProviderInfoView { name: "Local"@, provider_type: "local"@, enabled }
}

/// The description of an OIDC provider.
pub open spec fn oidc_info(name: Seq<char>) -> ProviderInfoView {
    ProviderInfoView { name, provider_type: "oidc"@, enabled: true }
}

/// The description of the LDAP provider.
pub open spec fn ldap_info() -> ProviderInfoView {
    ProviderInfoView { name: "LDAP"@, provider_type: "ldap"@, enabled: true }
}

/// The views of a sequence of provider descriptions.
pub open spec fn infos_view(v: Seq<ProviderInfo>) -> Seq<ProviderInfoView> {
    v.map_values(|p: ProviderInfo| p@)
}

/// The redirect URL of an OIDC provider: the base URL without trailing slashes, then
/// `/api/auth/oidc/`, the provider's name percent-encoded, and `/callback`.
pub open spec fn oidc_redirect_text(base_url: Seq<char>, name: Seq<char>) -> Seq<char> {
    trim_end_char(base_url, '/') + "/api/auth/oidc/"@ + enc(name) + "/callback"@
}

/// The redirect URL of a provider is its callback under the base URL: the base URL
/// without its trailing slashes, then `/api/auth/oidc/`, the encoded provider name and
/// `/callback`.
pub proof fn lemma_redirect_is_the_provider_callback(base_url: Seq<char>, name: Seq<char>)
    ensures
        has_suffix(oidc_redirect_text(base_url, name), "/api/auth/oidc/"@ + enc(name) + "/callback"@),
        ({
            let r = oidc_redirect_text(base_url, name);
            let base = r.take(r.len() - ("/api/auth/oidc/"@ + enc(name) + "/callback"@).len());
            &&& has_prefix(base_url, base)
            &&& base.len() == 0 || base.last() != '/'
            &&& forall|i: int| base.len() <= i < base_url.len() ==> base_url[i] == '/'
        }),
{
    crate::text::lemma_trim_end_char(base_url, '/');
    let t = trim_end_char(base_url, '/');
    let p = "/api/auth/oidc/"@ + enc(name) + "/callback"@;
    let r = oidc_redirect_text(base_url, name);
    assert(r =~= t + p);
    assert(r.skip(r.len() - p.len()) =~= p);
    assert(r.take(r.len() - p.len()) =~= t);
}

/// `i` is the first position that holds `name`.
pub open spec fn first_named(names: Seq<Seq<char>>, name: Seq<char>, i: int) -> bool {
    0 <= i < names.len() && names[i] == name && forall|j: int| 0 <= j < i ==> names[j] != name
}

/// Central authentication service that coordinates providers and sessions.
pub struct UserAuthService {
    config: AuthConfig,
    local_provider: LocalProvider,
    oidc_providers: Vec<OidcProvider>,
    ldap_provider: LdapProvider,
}

impl UserAuthService {
    /// Whether authentication is required.
    pub closed spec fn requires_auth(&self) -> bool {
        self.config.mode == AuthMode::Required
    }

    /// Whether the local provider is enabled.
    pub closed spec fn local_enabled(&self) -> bool {
        self.local_provider.is_enabled()
    }

    /// Whether the LDAP provider is enabled.
    pub closed spec fn ldap_enabled(&self) -> bool {
        self.ldap_provider.config_view().enabled
    }

    /// The configuration of the service.
    pub closed spec fn auth_config(&self) -> AuthConfig {
        self.config
    }

    /// The configuration of the LDAP provider.
    pub closed spec fn ldap_config(&self) -> LdapConfigView {
        self.ldap_provider.config_view()
    }

    /// The configuration of the OIDC provider at `i`.
    pub closed spec fn oidc_config(&self, i: int) -> OidcProviderConfigView {
        self.oidc_providers@[i].config_view()
    }

    /// The authorization endpoint of the OIDC provider at `i`.
    pub closed spec fn oidc_endpoint(&self, i: int) -> Seq<char> {
        self.oidc_providers@[i].authorization_endpoint()
    }

    /// The redirect URL of the OIDC provider at `i`.
    pub closed spec fn oidc_redirect(&self, i: int) -> Seq<char> {
        self.oidc_providers@[i].redirect_view()
    }

    /// Everything but the pending OIDC flows is as in `other`: the configuration, the
    /// local and LDAP providers, and the OIDC providers with their configurations,
    /// authorization endpoints and redirect URLs.
    pub open spec fn same_setup(&self, other: &Self) -> bool {
        &&& self.auth_config() == other.auth_config()
        &&& self.requires_auth() == other.requires_auth()
        &&& self.local_enabled() == other.local_enabled()
        &&& self.ldap_enabled() == other.ldap_enabled()
        &&& self.ldap_config() == other.ldap_config()
        &&& self.oidc_names() == other.oidc_names()
        &&& forall|j: int|
            0 <= j < other.oidc_names().len() ==> {
                &&& #[trigger] self.oidc_config(j) == other.oidc_config(j)
                &&& self.oidc_endpoint(j) == other.oidc_endpoint(j)
                &&& self.oidc_redirect(j) == other.oidc_redirect(j)
            }
    }

    /// The names of the OIDC providers that are initialized, in order.
    pub closed spec fn oidc_names(&self) -> Seq<Seq<char>> {
        self.oidc_providers@.map_values(|p: OidcProvider| p.config_view().name)
    }

    /// The pending flows of the OIDC provider at `i`.
    pub closed spec fn oidc_pending(&self, i: int) -> Map<Seq<char>, Seq<char>> {
        self.oidc_providers@[i].pending_view()
    }

    /// The service's internal consistency.
    pub closed spec fn wf(&self) -> bool {
        forall|i: int| 0 <= i < self.oidc_providers@.len() ==> #[trigger] self.oidc_providers@[i].wf()
    }

    /// A service with the configured local and LDAP providers and no OIDC provider yet:
    /// OIDC providers are added once their discovery documents have been fetched.
    pub fn new(config: AuthConfig) -> (s: Self)
        ensures
            s.wf(),
            s.requires_auth() == (config.mode == AuthMode::Required),
            s.local_enabled() == config.local.enabled,
            s.ldap_enabled() == config.ldap@.enabled,
            s.ldap_config() == config.ldap@,
            s.auth_config() == config,
            s.oidc_names().len() == 0,
    {
        let local_provider = LocalProvider::new(config.local);
        let ldap_provider = LdapProvider::new(config.ldap.duplicate());
        UserAuthService { config, local_provider, oidc_providers: Vec::new(), ldap_provider }
    }

    /// Adds an initialized OIDC provider.
    pub fn add_oidc_provider(&mut self, provider: OidcProvider)
        requires
            old(self).wf(),
            provider.wf(),
        ensures
            final(self).wf(),
            final(self).oidc_names() == old(self).oidc_names().push(provider.config_view().name),
            final(self).requires_auth() == old(self).requires_auth(),
            final(self).local_enabled() == old(self).local_enabled(),
            final(self).ldap_enabled() == old(self).ldap_enabled(),
            final(self).ldap_config() == old(self).ldap_config(),
            final(self).auth_config() == old(self).auth_config(),
            forall|j: int|
                0 <= j < old(self).oidc_names().len() ==> {
                    &&& #[trigger] final(self).oidc_config(j) == old(self).oidc_config(j)
                    &&& final(self).oidc_endpoint(j) == old(self).oidc_endpoint(j)
                    &&& final(self).oidc_redirect(j) == old(self).oidc_redirect(j)
                    &&& final(self).oidc_pending(j) == old(self).oidc_pending(j)
                },
            final(self).oidc_config(old(self).oidc_names().len() as int) == provider.config_view(),
            final(self).oidc_endpoint(old(self).oidc_names().len() as int)
                == provider.authorization_endpoint(),
            final(self).oidc_redirect(old(self).oidc_names().len() as int) == provider.redirect_view(),
            final(self).oidc_pending(old(self).oidc_names().len() as int) == provider.pending_view(),
    {
        let ghost name = provider.config_view().name;
        let ghost old_providers = self.oidc_providers@;
        self.oidc_providers.push(provider);
        assert(self.oidc_names() =~= old(self).oidc_names().push(name));
        assert forall|j: int| 0 <= j < old(self).oidc_names().len() implies #[trigger] self.oidc_config(j)
            == old(self).oidc_config(j) && self.oidc_endpoint(j) == old(self).oidc_endpoint(j)
            && self.oidc_redirect(j) == old(self).oidc_redirect(j) && self.oidc_pending(j) == old(
            self,
        ).oidc_pending(j) by {
            assert(self.oidc_providers@[j] == old_providers[j]);
        }
    }

    /// Whether every request must be authenticated.
    pub fn auth_required(&self) -> (b: bool)
        ensures
            b == self.requires_auth(),
    {
        self.config.auth_required()
    }

    /// The configuration of the service.
    pub fn config(&self) -> (c: &AuthConfig)
        ensures
            *c == self.auth_config(),
            (c.mode == AuthMode::Required) == self.requires_auth(),
    {
        &self.config
    }

    /// The LDAP provider.
    pub fn ldap_provider(&self) -> (p: &LdapProvider)
        ensures
            p.config_view() == self.ldap_config(),
            p.config_view().enabled == self.ldap_enabled(),
    {
        &self.ldap_provider
    }

    /// The local provider.
    pub fn local_provider(&self) -> (p: &LocalProvider)
        ensures
            p.is_enabled() == self.local_enabled(),
    {
        &self.local_provider
    }

    /// The configured providers: the local provider when it is enabled, each OIDC
    /// provider in order, and the LDAP provider when it is enabled.
    pub fn list_providers(&self) -> (res: Vec<ProviderInfo>)
        ensures
            infos_view(res@) == (if self.local_enabled() {
                seq![local_info(true)]
            } else {
                Seq::<ProviderInfoView>::empty()
            }) + self.oidc_names().map_values(|n: Seq<char>| oidc_info(n)) + (if self.ldap_enabled() {
                seq![ldap_info()]
            } else {
                Seq::<ProviderInfoView>::empty()
            }),
    {
        let mut providers: Vec<ProviderInfo> = Vec::new();
        if self.local_provider.enabled() {
            providers.push(self.local_provider.info());
        }
        let ghost head = infos_view(providers@);
        let n = self.oidc_providers.len();
        for i in 0..n
            invariant
                n == self.oidc_providers@.len(),
                infos_view(providers@) == head + self.oidc_names().map_values(
                    |nm: Seq<char>| oidc_info(nm),
                ).take(i as int),
        {
            let info = self.oidc_providers[i].info();
            let ghost before = infos_view(providers@);
            providers.push(info);
            assert(infos_view(providers@) =~= before.push(info@));
            assert(self.oidc_names().map_values(|nm: Seq<char>| oidc_info(nm)).take(i + 1)
                =~= self.oidc_names().map_values(|nm: Seq<char>| oidc_info(nm)).take(
                i as int,
            ).push(oidc_info(self.oidc_names()[i as int])));
        }
        assert(self.oidc_names().map_values(|nm: Seq<char>| oidc_info(nm)).take(n as int)
            =~= self.oidc_names().map_values(|nm: Seq<char>| oidc_info(nm)));
        let ghost mid = infos_view(providers@);
        if self.ldap_provider.enabled() {
            let info = self.ldap_provider.info();
            providers.push(info);
            assert(infos_view(providers@) =~= mid.push(info@));
        }
        assert(infos_view(providers@) =~= (if self.local_enabled() {
            seq![local_info(true)]
        } else {
            Seq::<ProviderInfoView>::empty()
        }) + self.oidc_names().map_values(|nm: Seq<char>| oidc_info(nm)) + (if self.ldap_enabled() {
            seq![ldap_info()]
        } else {
            Seq::<ProviderInfoView>::empty()
        }));
        providers
    }

    /// The position of the OIDC provider called `name`; an unknown name is a provider
    /// that is not configured.
    pub fn find_oidc_provider(&self, name: &str) -> (res: Result<usize, AuthError>)
        ensures
            match res {
                Ok(i) => i < self.oidc_names().len() && self.oidc_names()[i as int] == name@ && forall|
                    j: int,
                | 0 <= j < i ==> self.oidc_names()[j] != name@,
                Err(e) => (e matches AuthError::ProviderNotConfigured) && forall|j: int|
                    0 <= j < self.oidc_names().len() ==> self.oidc_names()[j] != name@,
            },
    {
        let n = self.oidc_providers.len();
        let mut i: usize = 0;
        while i < n
            invariant
                n == self.oidc_providers@.len(),
                i <= n,
                forall|j: int| 0 <= j < i ==> self.oidc_names()[j] != name@,
            decreases n - i,
        {
            if str_eq(self.oidc_providers[i].provider_name(), name) {
                return Ok(i);
            }
            i = i + 1;
        }
        Err(AuthError::ProviderNotConfigured)
    }

    /// Starts an OIDC flow with the provider called `name`: the authorization URL and
    /// the state under which the flow is now pending.
    #[verifier::rlimit(60)]
    #[verifier::spinoff_prover]
    pub fn oidc_authorization_url(&mut self, name: &str) -> (res: Result<(String, String), AuthError>)
        requires
            old(self).wf(),
        ensures
            final(self).wf(),
            final(self).same_setup(&*old(self)),
            (forall|j: int| 0 <= j < old(self).oidc_names().len() ==> old(self).oidc_names()[j] != name@)
                <==> res is Err,
            res matches Err(e) ==> (e is ProviderNotConfigured && forall|j: int|
                0 <= j < old(self).oidc_names().len() ==> #[trigger] final(self).oidc_pending(j)
                    == old(self).oidc_pending(j)),
            res matches Ok((url, state)) ==> exists|i: int, vb: Seq<u8>, sb: Seq<u8>|
                #![trigger first_named(old(self).oidc_names(), name@, i), base64url_nopad(vb), base64url_nopad(sb)]
                {
                    &&& first_named(old(self).oidc_names(), name@, i)
                    &&& vb.len() == 32
                    &&& sb.len() == 16
                    &&& state@ == base64url_nopad(sb)
                    &&& final(self).oidc_pending(i) == old(self).oidc_pending(i).insert(
                        state@,
                        base64url_nopad(vb),
                    )
                    &&& url@ == authorization_url_text(
                        old(self).oidc_endpoint(i),
                        old(self).oidc_config(i).client_id,
                        old(self).oidc_redirect(i),
                        old(self).oidc_config(i).scopes,
                        state@,
                        code_challenge_of(base64url_nopad(vb)),
                    )
                    &&& forall|j: int|
                        0 <= j < old(self).oidc_names().len() && j != i
                            ==> #[trigger] final(self).oidc_pending(j) == old(self).oidc_pending(j)
                },
    {
        let i = match self.find_oidc_provider(name) {
            Ok(i) => i,
            Err(e) => return Err(e),
        };
        let ghost old_providers = self.oidc_providers@;
        let mut p = self.oidc_providers.remove(i);
        assert(old_providers[i as int].wf());
        let ghost before = p;
        let (url, state) = p.authorization_url();
        let ghost (vb, sb) = choose|vb: Seq<u8>, sb: Seq<u8>|
            {
                &&& vb.len() == 32
                &&& sb.len() == 16
                &&& state@ == base64url_nopad(sb)
                &&& p.pending_view() == before.pending_view().insert(state@, base64url_nopad(vb))
                &&& url@ == authorization_url_text(
                    before.authorization_endpoint(),
                    before.config_view().client_id,
                    before.redirect_view(),
                    before.config_view().scopes,
                    state@,
                    code_challenge_of(base64url_nopad(vb)),
                )
            };
        self.oidc_providers.insert(i, p);
        assert(self.oidc_providers@ =~= old_providers.update(i as int, p));
        assert(self.oidc_names() =~= old(self).oidc_names());
        assert forall|j: int| 0 <= j < self.oidc_providers@.len() implies #[trigger] self.oidc_providers@[j].wf() by {
            if j != i {
                assert(self.oidc_providers@[j] == old_providers[j]);
            }
        }
        assert forall|j: int| 0 <= j < old(self).oidc_names().len() implies {
            &&& #[trigger] self.oidc_config(j) == old(self).oidc_config(j)
            &&& self.oidc_endpoint(j) == old(self).oidc_endpoint(j)
            &&& self.oidc_redirect(j) == old(self).oidc_redirect(j)
        } by {
            if j != i {
                assert(self.oidc_providers@[j] == old_providers[j]);
            }
        }
        assert(first_named(old(self).oidc_names(), name@, i as int));
        assert forall|j: int| 0 <= j < old(self).oidc_names().len() && j != i implies #[trigger] self.oidc_pending(j)
            == old(self).oidc_pending(j) by {
            assert(self.oidc_providers@[j] == old_providers[j]);
        }
        assert(self.oidc_pending(i as int) == old(self).oidc_pending(i as int).insert(
            state@,
            base64url_nopad(vb),
        ));
        Ok((url, state))
    }

    /// Takes the flow pending under `state` at the OIDC provider called `name`, giving
    /// the provider's position and the flow's code verifier. Each state is taken once:
    /// afterwards it is no longer pending there, and the other providers keep their
    /// flows.
    pub fn oidc_take_pending(&mut self, name: &str, state: &str) -> (res: Result<(usize, String), AuthError>)
        requires
            old(self).wf(),
        ensures
            final(self).wf(),
            final(self).same_setup(&*old(self)),
            forall|j: int|
                0 <= j < old(self).oidc_names().len() ==> #[trigger] final(self).oidc_pending(j) == (
                if first_named(old(self).oidc_names(), name@, j) {
                    old(self).oidc_pending(j).remove(state@)
                } else {
                    old(self).oidc_pending(j)
                }),
            match res {
                Ok((i, v)) => first_named(old(self).oidc_names(), name@, i as int) && old(
                    self,
                ).oidc_pending(i as int).contains_key(state@) && v@ == old(self).oidc_pending(
                    i as int,
                )[state@],
                Err(AuthError::ProviderNotConfigured) => forall|j: int|
                    0 <= j < old(self).oidc_names().len() ==> old(self).oidc_names()[j] != name@,
                Err(AuthError::Oidc(m)) => m@ == "Invalid or expired OIDC state"@ && exists|i: int|
                    first_named(old(self).oidc_names(), name@, i) && !old(self).oidc_pending(
                        i,
                    ).contains_key(state@),
                Err(_) => false,
            },
    {
        let i = match self.find_oidc_provider(name) {
            Ok(i) => i,
            Err(e) => return Err(e),
        };
        let ghost old_providers = self.oidc_providers@;
        let mut p = self.oidc_providers.remove(i);
        assert(old_providers[i as int].wf());
        let taken = p.take_pending(state);
        self.oidc_providers.insert(i, p);
        assert(self.oidc_providers@ =~= old_providers.update(i as int, p));
        assert(self.oidc_names() =~= old(self).oidc_names());
        assert forall|j: int| 0 <= j < self.oidc_providers@.len() implies #[trigger] self.oidc_providers@[j].wf() by {
            if j != i {
                assert(self.oidc_providers@[j] == old_providers[j]);
            }
        }
        assert forall|j: int| 0 <= j < old(self).oidc_names().len() implies {
            &&& #[trigger] self.oidc_config(j) == old(self).oidc_config(j)
            &&& self.oidc_endpoint(j) == old(self).oidc_endpoint(j)
            &&& self.oidc_redirect(j) == old(self).oidc_redirect(j)
        } by {
            if j != i {
                assert(self.oidc_providers@[j] == old_providers[j]);
            }
        }
        assert(first_named(old(self).oidc_names(), name@, i as int));
        assert forall|j: int| 0 <= j < old(self).oidc_names().len() implies #[trigger] self.oidc_pending(j) == (
            if first_named(old(self).oidc_names(), name@, j) {
                old(self).oidc_pending(j).remove(state@)
            } else {
                old(self).oidc_pending(j)
            }) by {
            if j != i {
                assert(self.oidc_providers@[j] == old_providers[j]);
                if j > i {
                    assert(old(self).oidc_names()[i as int] == name@);
                }
            }
        }
        match taken {
            Ok(v) => Ok((i, v)),
            Err(e) => Err(e),
        }
    }

    /// The OIDC provider at position `i`.
    pub fn oidc_provider(&self, i: usize) -> (p: &OidcProvider)
        requires
            i < self.oidc_names().len(),
        ensures
            p.config_view().name == self.oidc_names()[i as int],
    {
        &self.oidc_providers[i]
    }

    /// Whether the first-run setup is done: some user exists.
    pub fn has_users(user_count: i64) -> (b: bool)
        ensures
            b == (user_count > 0),
    {
        user_count > 0
    }
}

/// An OIDC state is accepted by the callback once: only one provider is the first
/// called `name`, so the callback looks where the login step recorded the state; the
/// state is pending there, which is what the callback's success needs; and once taken
/// it is pending no more, which is what refuses a second callback.
pub proof fn lemma_issued_state_accepted_once(
    names: Seq<Seq<char>>,
    name: Seq<char>,
    issued_at: int,
    taken_at: int,
    pending: Map<Seq<char>, Seq<char>>,
    state: Seq<char>,
)
    requires
        first_named(names, name, issued_at),
        first_named(names, name, taken_at),
        pending.contains_key(state),
    ensures
        taken_at == issued_at,
        !pending.remove(state).contains_key(state),
{
    if taken_at < issued_at {
        assert(names[taken_at] == name);
    } else if issued_at < taken_at {
        assert(names[issued_at] == name);
    }
}

/// The redirect URL of the OIDC provider called `name` for a server at `base_url`.
pub fn oidc_redirect_url(base_url: &str, name: &str) -> (res: String)
    ensures
        res@ == oidc_redirect_text(base_url@, name@),
{
    let cs = chars_of(base_url);
    let t = trim_end_char_chars(cs.as_slice(), '/');
    let mut s = string_of(t.as_slice());
    push_str(&mut s, "/api/auth/oidc/");
    push_str(&mut s, url_encode(name).as_str());
    push_str(&mut s, "/callback");
    s
}

/// The user of a stored row, or `AccountDisabled` when the account is disabled.
pub open spec fn active_user_of(row: UserRow) -> Result<User, AuthError> {
    if row.is_active == 0 {
        Err(AuthError::AccountDisabled)
    } else {
        Ok(user_of_row(row))
    }
}

/// A stored account signs in exactly when it is active: a disabled account is refused
/// as disabled, and an active one gives the user of its row.
pub proof fn lemma_only_active_accounts_sign_in(row: UserRow)
    ensures
        active_user_of(row) is Ok <==> row.is_active != 0,
        row.is_active == 0 ==> active_user_of(row) == Err::<User, AuthError>(AuthError::AccountDisabled),
        active_user_of(row) matches Ok(u) ==> u == user_of_row(row) && u.is_active,
{
}

/// The user of a stored row, unless the account is disabled.
pub fn active_user(row: UserRow) -> (res: Result<User, AuthError>)
    ensures
        res == active_user_of(row),
{
    let user = User::from(row);
    if !user.is_active {
        return Err(AuthError::AccountDisabled);
    }
    Ok(user)
}

/// The user of a valid session: the user must still exist and be active.
pub fn session_user(user: Option<User>) -> (res: Result<User, AuthError>)
    ensures
        user is None ==> res matches Err(AuthError::UserNotFound),
        user matches Some(u) ==> (u.is_active ==> (res matches Ok(v) && v == u)),
        user matches Some(u) ==> (!u.is_active ==> res matches Err(AuthError::AccountDisabled)),
{
    match user {
        None => Err(AuthError::UserNotFound),
        Some(u) => {
            if !u.is_active {
                return Err(AuthError::AccountDisabled);
            }
            Ok(u)
        },
    }
}

/// The next step of finding, or provisioning, the local user of an externally
/// authenticated user.
pub enum ExternalUserStep {
    /// Look the user up by provider and external id.
    QueryByExternalId { provider: String, external_id: String },
    /// Look the user up by email.
    QueryByEmail { email: String },
    /// No such user: create this one.
    Create(CreateUser),
    /// The outcome.
    Done(Result<User, AuthError>),
}

/// The user that just-in-time provisioning creates for an externally authenticated
/// user: no password, not an administrator, and the provider's details.
pub open spec fn jit_user_of(a: AuthenticatedUser) -> CreateUser {
    CreateUser {
        email: a.email,
        username: a.username,
        display_name: a.display_name,
        password: None,
        auth_provider: a.provider,
        external_id: a.external_id,
        avatar_url: a.avatar_url,
        is_admin: false,
    }
}

fn jit_user(a: &AuthenticatedUser) -> (c: CreateUser)
    ensures
        c == jit_user_of(*a),
        c.email == a.email,
        c.username == a.username,
        c.display_name == a.display_name,
        c.avatar_url == a.avatar_url,
        c.auth_provider == a.provider,
        c.external_id == a.external_id,
        c.password is None,
        !c.is_admin,
{
    CreateUser {
        email: a.email.clone(),
        username: a.username.clone(),
        display_name: a.display_name.clone(),
        password: None,
        auth_provider: a.provider.clone(),
        external_id: a.external_id.clone(),
        avatar_url: a.avatar_url.clone(),
        is_admin: false,
    }
}

/// The user provisioned for an externally authenticated user is that user as the
/// provider described them: the same email, user name, display name and avatar, the
/// provider as its authentication provider and the provider's external id; it has no
/// password and is not an administrator.
pub proof fn lemma_provisioned_user_is_the_external_user(a: AuthenticatedUser)
    ensures
        jit_user_of(a).email == a.email,
        jit_user_of(a).username == a.username,
        jit_user_of(a).display_name == a.display_name,
        jit_user_of(a).avatar_url == a.avatar_url,
        jit_user_of(a).auth_provider == a.provider,
        jit_user_of(a).external_id == a.external_id,
        jit_user_of(a).password is None,
        !jit_user_of(a).is_admin,
{
}

/// The first lookup for an externally authenticated user: by provider and external id
/// when the provider gave one, else by email.
pub open spec fn first_step_of(a: AuthenticatedUser) -> ExternalUserStep {
    match a.external_id {
        Some(e) => ExternalUserStep::QueryByExternalId { provider: a.provider, external_id: e },
        None => ExternalUserStep::QueryByEmail { email: a.email },
    }
}

/// The first step for an externally authenticated user: by external id when the
/// provider gave one, else by email.
pub fn external_user_first_step(a: &AuthenticatedUser) -> (s: ExternalUserStep)
    ensures
        s == first_step_of(*a),
        match a.external_id {
            Some(e) => s matches ExternalUserStep::QueryByExternalId { provider, external_id }
                && provider == a.provider && external_id == e,
            None => s matches ExternalUserStep::QueryByEmail { email } && email == a.email,
        },
{
    match &a.external_id {
        Some(e) => ExternalUserStep::QueryByExternalId { provider: a.provider.clone(), external_id: e.clone() },
        None => ExternalUserStep::QueryByEmail { email: a.email.clone() },
    }
}

/// The step after looking the user up by external id: a user found is the outcome,
/// unless disabled; otherwise look up by email.
pub fn external_user_after_id_lookup(a: &AuthenticatedUser, row: Option<UserRow>) -> (s: ExternalUserStep)
    ensures
        match row {
            Some(r) => s == ExternalUserStep::Done(active_user_of(r)),
            None => s matches ExternalUserStep::QueryByEmail { email } && email == a.email,
        },
{
    match row {
        Some(r) => ExternalUserStep::Done(active_user(r)),
        None => ExternalUserStep::QueryByEmail { email: a.email.clone() },
    }
}

/// The step after looking the user up by email: a user found is the outcome, unless
/// disabled; otherwise the user is created.
pub fn external_user_after_email_lookup(a: &AuthenticatedUser, row: Option<UserRow>) -> (s: ExternalUserStep)
    ensures
        match row {
            Some(r) => s == ExternalUserStep::Done(active_user_of(r)),
            None => s matches ExternalUserStep::Create(c) && c == jit_user_of(*a) && c.email == a.email
                && c.username == a.username && c.display_name == a.display_name && c.avatar_url
                == a.avatar_url && c.auth_provider == a.provider && c.external_id == a.external_id
                && c.password is None && !c.is_admin,
        },
{
    match row {
        Some(r) => ExternalUserStep::Done(active_user(r)),
        None => ExternalUserStep::Create(jit_user(a)),
    }
}

/// Provisioning creates at most one user per external identity: the user created for
/// `a` carries exactly the keys that the first lookup for `a` searches by (provider and
/// external id, or the email when there is no external id), so a later sign-in finds
/// it; and a found, active user is the outcome as it is stored, with its id.
pub proof fn lemma_provisioned_user_is_found_again(a: AuthenticatedUser, row: UserRow)
    ensures
        match first_step_of(a) {
            ExternalUserStep::QueryByExternalId { provider, external_id } => jit_user_of(a).auth_provider
                == provider && jit_user_of(a).external_id == Some(external_id),
            ExternalUserStep::QueryByEmail { email } => jit_user_of(a).email == email,
            _ => false,
        },
        row.is_active != 0 ==> (active_user_of(row) matches Ok(u) && u == user_of_row(row) && u.id
            == row.id),
{
}

} // verus!
