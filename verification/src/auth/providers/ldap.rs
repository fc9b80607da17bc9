//! The LDAP provider: the bind name and search filter of a user, and the user that a
//! search result describes. The directory is reached by the caller, one step at a
//! time.
use vstd::prelude::*;

use crate::auth::config::{LdapConfig, LdapConfigView};
use crate::auth::errors::AuthError;
use crate::auth::providers::{AuthProvider, AuthenticatedUser, ProviderInfo};
use crate::text::{chars_of, opt_view, owned, replace_all, replace_chars, str_eq, string_of, strings_view};

verus! {

/// The placeholder that the bind DN template and the user filter carry for the user name.
pub open spec fn username_placeholder() -> Seq<char> {
    "{username}"@
}

/// One entry of a directory search: its distinguished name and its attributes, each
/// name given once with its values.
#[derive(Debug, Clone)]
pub struct LdapEntry {
    pub dn: String,
    pub attrs: Vec<(String, Vec<String>)>,
}

/// The attributes as texts.
pub open spec fn attrs_view(a: Seq<(String, Vec<String>)>) -> Seq<(Seq<char>, Seq<Seq<char>>)> {
    a.map_values(|p: (String, Vec<String>)| (p.0@, strings_view(p.1@)))
}

/// The first value of the first attribute called `name`, if it has one.
pub open spec fn first_attr_value(attrs: Seq<(Seq<char>, Seq<Seq<char>>)>, name: Seq<char>) -> Option<
    Seq<char>,
>
    decreases attrs.len(),
{
    if attrs.len() == 0 {
        None
    } else if attrs[0].0 == name {
        if attrs[0].1.len() > 0 {
            Some(attrs[0].1[0])
        } else {
            None
        }
    } else {
        first_attr_value(attrs.drop_first(), name)
    }
}

/// Authenticates users by a simple bind against an LDAP directory.
#[derive(Debug, Clone)]
pub struct LdapProvider {
    config: LdapConfig,
}

impl LdapProvider {
    /// The configuration the provider was made with.
    pub closed spec fn config_view(&self) -> LdapConfigView {
        self.config@
    }

    /// A provider with the given configuration.
    pub fn new(config: LdapConfig) -> (p: Self)
        ensures
            p.config_view() == config@,
    {
        LdapProvider { config }
    }

    /// Whether the provider is enabled.
    pub fn enabled(&self) -> (b: bool)
        ensures
            b == self.config_view().enabled,
    {
        self.config.enabled
    }

    /// The address of the directory.
    pub fn url(&self) -> (s: &str)
        ensures
            s@ == self.config_view().url,
    {
        self.config.url.as_str()
    }

    /// Where in the directory users are searched.
    pub fn search_base(&self) -> (s: &str)
        ensures
            s@ == self.config_view().search_base,
    {
        self.config.search_base.as_str()
    }

    /// A disabled provider refuses every attempt.
    pub fn check_enabled(&self) -> (res: Result<(), AuthError>)
        ensures
            self.config_view().enabled <==> res is Ok,
            res is Err ==> res matches Err(AuthError::ProviderNotConfigured),
    {
        if !self.config.enabled {
            return Err(AuthError::ProviderNotConfigured);
        }
        Ok(())
    }

    /// The name to bind as: the bind DN template with every `{username}` replaced by
    /// the user name.
    pub fn bind_dn(&self, username: &str) -> (res: String)
        ensures
            res@ == replace_all(self.config_view().bind_dn_template, username_placeholder(), username@),
    {
        let template = chars_of(self.config.bind_dn_template.as_str());
        let pat = chars_of("{username}");
        proof {
            reveal_strlit("{username}");
        }
        let rep = chars_of(username);
        let out = replace_chars(template.as_slice(), pat.as_slice(), rep.as_slice());
        string_of(out.as_slice())
    }

    /// The search filter for the user: the user filter with every `{username}`
    /// replaced by the user name.
    pub fn search_filter(&self, username: &str) -> (res: String)
        ensures
            res@ == replace_all(self.config_view().user_filter, username_placeholder(), username@),
    {
        let filter = chars_of(self.config.user_filter.as_str());
        let pat = chars_of("{username}");
        proof {
            reveal_strlit("{username}");
        }
        let rep = chars_of(username);
        let out = replace_chars(filter.as_slice(), pat.as_slice(), rep.as_slice());
        string_of(out.as_slice())
    }

    /// The attributes to ask the directory for: email, name and user name, in that order.
    pub fn search_attributes(&self) -> (res: Vec<String>)
        ensures
            strings_view(res@) == seq![
                self.config_view().attr_email,
                self.config_view().attr_name,
                self.config_view().attr_username,
            ],
    {
        let mut res: Vec<String> = Vec::new();
        res.push(self.config.attr_email.clone());
        res.push(self.config.attr_name.clone());
        res.push(self.config.attr_username.clone());
        assert(strings_view(res@) =~= seq![
            self.config_view().attr_email,
            self.config_view().attr_name,
            self.config_view().attr_username,
        ]);
        res
    }

    /// The outcome of the bind: any result code but 0 means the credentials are wrong.
    pub fn check_bind_result(rc: u32) -> (res: Result<(), AuthError>)
        ensures
            rc == 0 <==> res is Ok,
            rc != 0 ==> res matches Err(AuthError::InvalidCredentials),
    {
        if rc != 0 {
            return Err(AuthError::InvalidCredentials);
        }
        Ok(())
    }

    /// The user that the search found: the first entry, whose first email value must be
    /// present and non-empty; the name and user name are the first values of their
    /// attributes, and the entry's DN is the external id.
    pub fn user_from_search(&self, entries: Vec<LdapEntry>) -> (res: Result<AuthenticatedUser, AuthError>)
        ensures
            entries@.len() == 0 ==> (res matches Err(AuthError::Ldap(m)) && m@ == "User not found in LDAP"@),
            entries@.len() > 0 ==> {
                let attrs = attrs_view(entries@[0].attrs@);
                let email = match first_attr_value(attrs, self.config_view().attr_email) {
                    Some(v) => v,
                    None => Seq::<char>::empty(),
                };
                if email.len() == 0 {
                    (res matches Err(AuthError::Ldap(m)) && m@ == "Email attribute not found in LDAP entry"@)
                } else {
                    (res matches Ok(u) && u.email@ == email && opt_view(u.display_name)
                        == first_attr_value(attrs, self.config_view().attr_name) && opt_view(
                        u.username,
                    ) == first_attr_value(attrs, self.config_view().attr_username) && opt_view(
                        u.external_id,
                    ) == Some(entries@[0].dn@) && u.avatar_url is None && u.provider@ == "ldap"@)
                }
            },
    {
        if entries.len() == 0 {
            return Err(AuthError::Ldap(owned("User not found in LDAP")));
        }
        let entry = &entries[0];
        let email = match first_value(&entry.attrs, self.config.attr_email.as_str()) {
            Some(v) => v,
            None => String::new(),
        };
        let display_name = first_value(&entry.attrs, self.config.attr_name.as_str());
        let username = first_value(&entry.attrs, self.config.attr_username.as_str());
        if email.as_str().is_empty() {
            return Err(AuthError::Ldap(owned("Email attribute not found in LDAP entry")));
        }
        Ok(
            AuthenticatedUser {
                email,
                username,
                display_name,
                external_id: Some(entry.dn.clone()),
                avatar_url: None,
                provider: owned("ldap"),
            },
        )
    }
}

/// The first value of the first attribute called `name`.
fn first_value(attrs: &Vec<(String, Vec<String>)>, name: &str) -> (res: Option<String>)
    ensures
        opt_view(res) == first_attr_value(attrs_view(attrs@), name@),
{
    let ghost av = attrs_view(attrs@);
    let n = attrs.len();
    let mut i: usize = 0;
    assert(av.skip(0) =~= av);
    while i < n
        invariant
            n == attrs@.len(),
            av == attrs_view(attrs@),
            i <= n,
            first_attr_value(av.skip(i as int), name@) == first_attr_value(av, name@),
        decreases n - i,
    {
        assert(av.skip(i as int)[0] == av[i as int]);
        assert(av.skip(i as int).drop_first() =~= av.skip(i + 1));
        if str_eq(attrs[i].0.as_str(), name) {
            if attrs[i].1.len() > 0 {
                assert(av[i as int].1[0] == attrs@[i as int].1@[0]@);
                return Some(attrs[i].1[0].clone());
            } else {
                return None;
            }
        }
        i = i + 1;
    }
    assert(av.skip(n as int).len() == 0);
    None
}

impl AuthProvider for LdapProvider {
    fn provider_type(&self) -> (s: &str)
        ensures
            s@ == "ldap"@,
    {
        "ldap"
    }

    fn name(&self) -> (s: &str)
        ensures
            s@ == "LDAP"@,
    {
        "LDAP"
    }

    fn info(&self) -> (i: ProviderInfo)
        ensures
            i.name@ == "LDAP"@,
            i.provider_type@ == "ldap"@,
            i.enabled == self.config_view().enabled,
    {
        ProviderInfo { name: owned("LDAP"), provider_type: owned("ldap"), enabled: self.config.enabled }
    }
}

} // verus!
