//! The OpenID Connect provider: the authorization URL of the PKCE flow, the pending
//! flows awaiting their callback, the token request, and the user that the userinfo
//! endpoint describes. The HTTP requests themselves are the caller's.
use vstd::prelude::*;
use vstd::string::StringSliceAdditionalSpecFns;
use vstd::utf8::encode_utf8;

use crate::auth::config::{OidcProviderConfig, OidcProviderConfigView};
use crate::auth::errors::AuthError;
use crate::auth::providers::{AuthProvider, AuthenticatedUser, ProviderInfo};
use crate::external::{
    base64url_encode, base64url_nopad, percent_encode, random_bytes, sha256, sha256_digest,
    url_encode,
};
use crate::text::{
    has_prefix, has_suffix, lemma_trim_end_char, occurs_at, split_on, chars_of, opt_view, owned, push_str, str_eq, string_of, strings_view, trim_end_char,
    trim_end_char_chars,
};

verus! {

/// The percent-encoding of a text's UTF-8 bytes, as `urlencoding::encode` gives it.
pub open spec fn enc(s: Seq<char>) -> Seq<char> {
    percent_encode(encode_utf8(s))
}

fn enc_exec(s: &str) -> (res: String)
    ensures
        res@ == enc(s@),
{
    url_encode(s)
}

/// The endpoints that the provider's discovery document names.
#[derive(Debug, Clone)]
pub struct OidcDiscovery {
    pub authorization_endpoint: String,
    pub token_endpoint: String,
    pub userinfo_endpoint: Option<String>,
}

/// The answer of the token endpoint.
#[derive(Debug, Clone)]
pub struct TokenResponse {
    pub access_token: String,
    pub id_token: Option<String>,
    pub token_type: String,
}

/// The answer of the userinfo endpoint.
#[derive(Debug, Clone)]
pub struct UserInfo {
    pub sub: String,
    pub email: Option<String>,
    pub name: Option<String>,
    pub preferred_username: Option<String>,
    pub picture: Option<String>,
}

// ───────────────────────── pending flows ─────────────────────────

/// The flows that await their callback: each state, issued with an authorization URL,
/// with the PKCE code verifier of its flow.
pub struct PendingAuths {
    entries: Vec<(String, String)>,
    model: Ghost<Map<Seq<char>, Seq<char>>>,
}

impl PendingAuths {
    /// The pending flows, by state.
    pub closed spec fn view(&self) -> Map<Seq<char>, Seq<char>> {
        self.model@
    }

    /// The entries hold each state once, and exactly the states of the view.
    pub closed spec fn wf(&self) -> bool {
        &&& forall|i: int|
            #![trigger self.entries@[i]]
            0 <= i < self.entries@.len() ==> self.model@.contains_key(self.entries@[i].0@)
                && self.model@[self.entries@[i].0@] == self.entries@[i].1@
        &&& forall|k: Seq<char>|
            #[trigger] self.model@.contains_key(k) ==> exists|i: int|
                0 <= i < self.entries@.len() && self.entries@[i].0@ == k
        &&& forall|i: int, j: int|
            #![trigger self.entries@[i], self.entries@[j]]
            0 <= i < self.entries@.len() && 0 <= j < self.entries@.len() && i != j
                ==> self.entries@[i].0@ != self.entries@[j].0@
    }

    /// No pending flow.
    pub fn new() -> (p: Self)
        ensures
            p.wf(),
            p.view() == Map::<Seq<char>, Seq<char>>::empty(),
    {
        PendingAuths { entries: Vec::new(), model: Ghost(Map::empty()) }
    }

    fn index_of(&self, state: &str) -> (res: Option<usize>)
        requires
            self.wf(),
        ensures
            match res {
                Some(i) => i < self.entries@.len() && self.entries@[i as int].0@ == state@,
                None => !self.view().contains_key(state@),
            },
    {
        let n = self.entries.len();
        let mut i: usize = 0;
        while i < n
            invariant
                n == self.entries@.len(),
                i <= n,
                forall|j: int| 0 <= j < i ==> self.entries@[j].0@ != state@,
            decreases n - i,
        {
            if str_eq(self.entries[i].0.as_str(), state) {
                return Some(i);
            }
            i = i + 1;
        }
        None
    }

    /// Records a flow; a flow already pending under the same state is replaced.
    pub fn insert(&mut self, state: String, code_verifier: String)
        requires
            old(self).wf(),
        ensures
            final(self).wf(),
            final(self).view() == old(self).view().insert(state@, code_verifier@),
    {
        let ghost k = state@;
        let ghost v = code_verifier@;
        let ghost old_entries = self.entries@;
        let ghost old_model = self.model@;
        match self.index_of(state.as_str()) {
            Some(i) => {
                self.entries.set(i, (state, code_verifier));
                self.model = Ghost(self.model@.insert(k, v));
                assert forall|j: int| #![trigger self.entries@[j]] 0 <= j < self.entries@.len() implies self.model@.contains_key(
                    self.entries@[j].0@,
                ) && self.model@[self.entries@[j].0@] == self.entries@[j].1@ by {
                    if j != i {
                        assert(old_entries[j] == self.entries@[j]);
                        assert(old_entries[j].0@ != old_entries[i as int].0@);
                    }
                }
                assert forall|kk: Seq<char>| #[trigger] self.model@.contains_key(kk) implies exists|
                    j: int,
                | 0 <= j < self.entries@.len() && self.entries@[j].0@ == kk by {
                    if kk == k {
                        assert(self.entries@[i as int].0@ == kk);
                    } else {
                        assert(old_model.contains_key(kk));
                        let j = choose|j: int| 0 <= j < old_entries.len() && old_entries[j].0@ == kk;
                        assert(self.entries@[j].0@ == kk);
                    }
                }
                assert forall|a: int, b: int|
                    #![trigger self.entries@[a], self.entries@[b]]
                    0 <= a < self.entries@.len() && 0 <= b < self.entries@.len() && a != b
                        implies self.entries@[a].0@ != self.entries@[b].0@ by {
                    if a != i && b != i {
                        assert(old_entries[a] == self.entries@[a]);
                        assert(old_entries[b] == self.entries@[b]);
                    } else if a == i {
                        assert(old_entries[b] == self.entries@[b]);
                        assert(old_entries[b].0@ != old_entries[a].0@);
                    } else {
                        assert(old_entries[a] == self.entries@[a]);
                        assert(old_entries[a].0@ != old_entries[b].0@);
                    }
                }
            },
            None => {
                self.entries.push((state, code_verifier));
                self.model = Ghost(self.model@.insert(k, v));
                let ghost last = old_entries.len() as int;
                assert forall|j: int| #![trigger self.entries@[j]] 0 <= j < self.entries@.len() implies self.model@.contains_key(
                    self.entries@[j].0@,
                ) && self.model@[self.entries@[j].0@] == self.entries@[j].1@ by {
                    if j != last {
                        assert(old_entries[j] == self.entries@[j]);
                        assert(old_model.contains_key(old_entries[j].0@));
                        assert(old_entries[j].0@ != k);
                    }
                }
                assert forall|kk: Seq<char>| #[trigger] self.model@.contains_key(kk) implies exists|
                    j: int,
                | 0 <= j < self.entries@.len() && self.entries@[j].0@ == kk by {
                    if kk == k {
                        assert(self.entries@[last].0@ == kk);
                    } else {
                        assert(old_model.contains_key(kk));
                        let j = choose|j: int| 0 <= j < old_entries.len() && old_entries[j].0@ == kk;
                        assert(self.entries@[j].0@ == kk);
                    }
                }
                assert forall|a: int, b: int|
                    #![trigger self.entries@[a], self.entries@[b]]
                    0 <= a < self.entries@.len() && 0 <= b < self.entries@.len() && a != b
                        implies self.entries@[a].0@ != self.entries@[b].0@ by {
                    if a != last && b != last {
                        assert(old_entries[a] == self.entries@[a]);
                        assert(old_entries[b] == self.entries@[b]);
                    } else if a == last {
                        assert(old_entries[b] == self.entries@[b]);
                        assert(old_model.contains_key(old_entries[b].0@));
                    } else {
                        assert(old_entries[a] == self.entries@[a]);
                        assert(old_model.contains_key(old_entries[a].0@));
                    }
                }
            },
        }
    }

    /// Removes and returns the code verifier of the flow pending under `state`.
    pub fn take(&mut self, state: &str) -> (res: Option<String>)
        requires
            old(self).wf(),
        ensures
            final(self).wf(),
            final(self).view() == old(self).view().remove(state@),
            match res {
                Some(v) => old(self).view().contains_key(state@) && v@ == old(self).view()[state@],
                None => !old(self).view().contains_key(state@),
            },
    {
        match self.index_of(state) {
            None => {
                assert(self.model@.remove(state@) =~= self.model@);
                None
            },
            Some(i) => {
                let ghost old_entries = self.entries@;
                let ghost old_model = self.model@;
                assert(old_entries[i as int].0@ == state@);
                let entry = self.entries.remove(i);
                assert(entry == old_entries[i as int]);
                assert(old_model[state@] == entry.1@);
                self.model = Ghost(self.model@.remove(state@));
                assert forall|j: int| #![trigger self.entries@[j]] 0 <= j < self.entries@.len() implies self.model@.contains_key(
                    self.entries@[j].0@,
                ) && self.model@[self.entries@[j].0@] == self.entries@[j].1@ by {
                    let oj = if j < i { j } else { j + 1 };
                    assert(self.entries@[j] == old_entries[oj]);
                    assert(old_entries[oj].0@ != old_entries[i as int].0@);
                }
                assert forall|kk: Seq<char>| #[trigger] self.model@.contains_key(kk) implies exists|
                    j: int,
                | 0 <= j < self.entries@.len() && self.entries@[j].0@ == kk by {
                    assert(old_model.contains_key(kk));
                    let oj = choose|j: int| 0 <= j < old_entries.len() && old_entries[j].0@ == kk;
                    assert(oj != i);
                    if oj < i {
                        assert(self.entries@[oj] == old_entries[oj]);
                    } else {
                        assert(self.entries@[oj - 1] == old_entries[oj]);
                    }
                }
                assert forall|a: int, b: int|
                    #![trigger self.entries@[a], self.entries@[b]]
                    0 <= a < self.entries@.len() && 0 <= b < self.entries@.len() && a != b
                        implies self.entries@[a].0@ != self.entries@[b].0@ by {
                    let oa = if a < i { a } else { a + 1 };
                    let ob = if b < i { b } else { b + 1 };
                    assert(self.entries@[a] == old_entries[oa]);
                    assert(self.entries@[b] == old_entries[ob]);
                    assert(old_entries[oa].0@ != old_entries[ob].0@);
                }
                Some(entry.1)
            },
        }
    }
}

/// A state, once issued, can be exchanged exactly once: right after it is recorded the
/// flow is found with its verifier, and once it has been taken it is gone.
pub proof fn lemma_state_single_use(
    pending: Map<Seq<char>, Seq<char>>,
    state: Seq<char>,
    verifier: Seq<char>,
)
    ensures
        pending.insert(state, verifier).contains_key(state),
        pending.insert(state, verifier)[state] == verifier,
        !pending.insert(state, verifier).remove(state).contains_key(state),
{
}

// ───────────────────────── the provider ─────────────────────────

/// The words of a list joined by single spaces.
pub open spec fn join_spaces(words: Seq<Seq<char>>) -> Seq<char>
    decreases words.len(),
{
    if words.len() == 0 {
        Seq::<char>::empty()
    } else if words.len() == 1 {
        words[0]
    } else {
        join_spaces(words.drop_last()) + " "@ + words.last()
    }
}

/// Joining words that hold no space can be undone: splitting the joined text at its
/// spaces gives the words back, in order (the scopes of a request are its words).
pub proof fn lemma_split_undoes_join(words: Seq<Seq<char>>)
    requires
        words.len() > 0,
        forall|i: int, j: int|
            0 <= i < words.len() && 0 <= j < words[i].len() ==> #[trigger] words[i][j] != ' ',
    ensures
        split_on(join_spaces(words), ' ') == words,
    decreases words.len(),
{
    if words.len() == 1 {
        assert forall|j: int| 0 <= j < words[0].len() implies #[trigger] words[0][j] != ' ' by {
            assert(words[0][j] != ' ');
        }
        crate::text::lemma_split_without_sep(words[0], ' ');
        assert(words =~= seq![words[0]]);
    } else {
        let init = words.drop_last();
        let last = words.last();
        assert forall|i: int, j: int| 0 <= i < init.len() && 0 <= j < init[i].len() implies #[trigger] init[i][j]
            != ' ' by {
            assert(init[i] == words[i]);
            assert(words[i][j] != ' ');
        }
        lemma_split_undoes_join(init);
        assert forall|j: int| 0 <= j < last.len() implies #[trigger] last[j] != ' ' by {
            assert(words[words.len() - 1][j] != ' ');
        }
        crate::text::lemma_split_suffix_piece(join_spaces(init), ' ', last);
        reveal_strlit(" ");
        assert(join_spaces(words) =~= join_spaces(init).push(' ') + last);
        assert(init.push(last) =~= words);
    }
}

fn join_spaces_exec(words: &Vec<String>) -> (res: String)
    ensures
        res@ == join_spaces(strings_view(words@)),
{
    let mut res = String::new();
    let n = words.len();
    let ghost w = strings_view(words@);
    for i in 0..n
        invariant
            n == words@.len(),
            w == strings_view(words@),
            res@ == join_spaces(w.take(i as int)),
    {
        assert(w.take(i + 1).drop_last() =~= w.take(i as int));
        if i == 0 {
            assert(w.take(0) =~= Seq::<Seq<char>>::empty());
            push_str(&mut res, words[i].as_str());
            assert(res@ =~= w.take(1)[0]);
        } else {
            push_str(&mut res, " ");
            push_str(&mut res, words[i].as_str());
        }
    }
    assert(w.take(n as int) =~= w);
    res
}

/// The authorization URL of a PKCE flow.
pub open spec fn authorization_url_text(
    endpoint: Seq<char>,
    client_id: Seq<char>,
    redirect_url: Seq<char>,
    scopes: Seq<Seq<char>>,
    state: Seq<char>,
    code_challenge: Seq<char>,
) -> Seq<char> {
    endpoint + "?response_type=code&client_id="@ + enc(client_id) + "&redirect_uri="@ + enc(
        redirect_url,
    ) + "&scope="@ + enc(join_spaces(scopes)) + "&state="@ + enc(state) + "&code_challenge="@
        + enc(code_challenge) + "&code_challenge_method=S256"@
}

/// The authorization URL asks for an authorization code: it begins with the endpoint,
/// `?response_type=code` and the encoded client id, names the encoded redirect URL and
/// scopes, and ends with the encoded state, the encoded code challenge and the
/// challenge method `S256`, in that order.
pub proof fn lemma_authorization_url_carries_state_and_challenge(
    endpoint: Seq<char>,
    client_id: Seq<char>,
    redirect_url: Seq<char>,
    scopes: Seq<Seq<char>>,
    state: Seq<char>,
    code_challenge: Seq<char>,
)
    ensures
        has_prefix(
            authorization_url_text(endpoint, client_id, redirect_url, scopes, state, code_challenge),
            endpoint + "?response_type=code&client_id="@ + enc(client_id) + "&redirect_uri="@ + enc(
                redirect_url,
            ) + "&scope="@ + enc(join_spaces(scopes)),
        ),
        has_suffix(
            authorization_url_text(endpoint, client_id, redirect_url, scopes, state, code_challenge),
            "&state="@ + enc(state) + "&code_challenge="@ + enc(code_challenge)
                + "&code_challenge_method=S256"@,
        ),
{
    let head = endpoint + "?response_type=code&client_id="@ + enc(client_id) + "&redirect_uri="@
        + enc(redirect_url) + "&scope="@ + enc(join_spaces(scopes));
    let tail = "&state="@ + enc(state) + "&code_challenge="@ + enc(code_challenge)
        + "&code_challenge_method=S256"@;
    let u = authorization_url_text(endpoint, client_id, redirect_url, scopes, state, code_challenge);
    assert(u =~= head + tail);
    assert((head + tail).take(head.len() as int) =~= head);
    assert((head + tail).skip((head + tail).len() - tail.len()) =~= tail);
}

/// The form body of the token request that exchanges a code.
pub open spec fn token_request_text(
    code: Seq<char>,
    redirect_url: Seq<char>,
    client_id: Seq<char>,
    client_secret: Seq<char>,
    code_verifier: Seq<char>,
) -> Seq<char> {
    "grant_type=authorization_code&code="@ + enc(code) + "&redirect_uri="@ + enc(redirect_url)
        + "&client_id="@ + enc(client_id) + "&client_secret="@ + enc(client_secret)
        + "&code_verifier="@ + enc(code_verifier)
}

/// The token request exchanges an authorization code: it begins with the grant type
/// `authorization_code` and the encoded code, names the encoded redirect URL, client
/// id and client secret, and ends with the encoded code verifier.
pub proof fn lemma_token_request_fields(
    code: Seq<char>,
    redirect_url: Seq<char>,
    client_id: Seq<char>,
    client_secret: Seq<char>,
    code_verifier: Seq<char>,
)
    ensures
        has_prefix(
            token_request_text(code, redirect_url, client_id, client_secret, code_verifier),
            "grant_type=authorization_code&code="@ + enc(code),
        ),
        has_suffix(
            token_request_text(code, redirect_url, client_id, client_secret, code_verifier),
            "&code_verifier="@ + enc(code_verifier),
        ),
        occurs_at(
            token_request_text(code, redirect_url, client_id, client_secret, code_verifier),
            "&redirect_uri="@ + enc(redirect_url) + "&client_id="@ + enc(client_id)
                + "&client_secret="@ + enc(client_secret),
            ("grant_type=authorization_code&code="@ + enc(code)).len() as int,
        ),
{
    let head = "grant_type=authorization_code&code="@ + enc(code);
    let mid = "&redirect_uri="@ + enc(redirect_url) + "&client_id="@ + enc(client_id)
        + "&client_secret="@ + enc(client_secret);
    let tail = "&code_verifier="@ + enc(code_verifier);
    let t = token_request_text(code, redirect_url, client_id, client_secret, code_verifier);
    assert(t =~= head + mid + tail);
    assert(t.take(head.len() as int) =~= head);
    assert(t.skip(t.len() - tail.len()) =~= tail);
    assert(t.subrange(head.len() as int, (head.len() + mid.len()) as int) =~= mid);
}

/// The PKCE code challenge of a verifier: the unpadded URL-safe base64 text of the
/// SHA-256 digest of the verifier's bytes.
pub open spec fn code_challenge_of(verifier: Seq<char>) -> Seq<char> {
    base64url_nopad(sha256_digest(encode_utf8(verifier)))
}

/// The address of a provider's discovery document.
pub open spec fn discovery_url_text(issuer_url: Seq<char>) -> Seq<char> {
    trim_end_char(issuer_url, '/') + "/.well-known/openid-configuration"@
}

/// The discovery document lies at `/.well-known/openid-configuration` under the
/// issuer: the address is the issuer without its trailing slashes, then that path.
pub proof fn lemma_discovery_url_under_issuer(issuer_url: Seq<char>)
    ensures
        has_suffix(discovery_url_text(issuer_url), "/.well-known/openid-configuration"@),
        ({
            let d = discovery_url_text(issuer_url);
            let base = d.take(d.len() - "/.well-known/openid-configuration"@.len());
            &&& has_prefix(issuer_url, base)
            &&& base.len() == 0 || base.last() != '/'
            &&& forall|i: int| base.len() <= i < issuer_url.len() ==> issuer_url[i] == '/'
        }),
{
    lemma_trim_end_char(issuer_url, '/');
    let t = trim_end_char(issuer_url, '/');
    let p = "/.well-known/openid-configuration"@;
    let d = discovery_url_text(issuer_url);
    assert(d.skip(d.len() - p.len()) =~= p);
    assert(d.take(d.len() - p.len()) =~= t);
}

/// The address of the discovery document of an issuer.
pub fn discovery_url(issuer_url: &str) -> (res: String)
    ensures
        res@ == discovery_url_text(issuer_url@),
{
    let cs = chars_of(issuer_url);
    let t = trim_end_char_chars(cs.as_slice(), '/');
    let mut s = string_of(t.as_slice());
    push_str(&mut s, "/.well-known/openid-configuration");
    s
}

/// An OpenID Connect provider.
pub struct OidcProvider {
    config: OidcProviderConfig,
    discovery: OidcDiscovery,
    redirect_url: String,
    pending: PendingAuths,
}

impl OidcProvider {
    /// The configuration the provider was made with.
    pub closed spec fn config_view(&self) -> OidcProviderConfigView {
        self.config@
    }

    /// The authorization endpoint of the provider.
    pub closed spec fn authorization_endpoint(&self) -> Seq<char> {
        self.discovery.authorization_endpoint@
    }

    /// The token endpoint of the provider.
    pub closed spec fn token_endpoint_view(&self) -> Seq<char> {
        self.discovery.token_endpoint@
    }

    /// The userinfo endpoint of the provider, if it has one.
    pub closed spec fn userinfo_endpoint_view(&self) -> Option<Seq<char>> {
        opt_view(self.discovery.userinfo_endpoint)
    }

    /// Where the provider sends the browser back.
    pub closed spec fn redirect_view(&self) -> Seq<char> {
        self.redirect_url@
    }

    /// The pending flows, by state.
    pub closed spec fn pending_view(&self) -> Map<Seq<char>, Seq<char>> {
        self.pending.view()
    }

    /// The provider's internal consistency.
    pub closed spec fn wf(&self) -> bool {
        self.pending.wf()
    }

    /// A provider with the given configuration, discovered endpoints and redirect URL,
    /// and no pending flow.
    pub fn new(config: OidcProviderConfig, discovery: OidcDiscovery, redirect_url: String) -> (p: Self)
        ensures
            p.wf(),
            p.config_view() == config@,
            p.authorization_endpoint() == discovery.authorization_endpoint@,
            p.token_endpoint_view() == discovery.token_endpoint@,
            p.userinfo_endpoint_view() == opt_view(discovery.userinfo_endpoint),
            p.redirect_view() == redirect_url@,
            p.pending_view() == Map::<Seq<char>, Seq<char>>::empty(),
    {
        OidcProvider { config, discovery, redirect_url, pending: PendingAuths::new() }
    }

    /// The name of the provider.
    pub fn provider_name(&self) -> (s: &str)
        ensures
            s@ == self.config_view().name,
    {
        self.config.name.as_str()
    }

    /// The token endpoint of the provider.
    pub fn token_endpoint(&self) -> (s: &str)
        ensures
            s@ == self.token_endpoint_view(),
    {
        self.discovery.token_endpoint.as_str()
    }

    /// Starts a flow: a fresh random code verifier (32 bytes) and state (16 bytes), both
    /// as unpadded URL-safe base64; the flow is recorded under its state, and the
    /// authorization URL carries the state and the verifier's S256 challenge.
    pub fn authorization_url(&mut self) -> (res: (String, String))
        requires
            old(self).wf(),
        ensures
            final(self).wf(),
            final(self).config_view() == old(self).config_view(),
            final(self).authorization_endpoint() == old(self).authorization_endpoint(),
            final(self).token_endpoint_view() == old(self).token_endpoint_view(),
            final(self).userinfo_endpoint_view() == old(self).userinfo_endpoint_view(),
            final(self).redirect_view() == old(self).redirect_view(),
            exists|vb: Seq<u8>, sb: Seq<u8>|
                {
                    &&& vb.len() == 32
                    &&& sb.len() == 16
                    &&& res.1@ == base64url_nopad(sb)
                    &&& final(self).pending_view() == old(self).pending_view().insert(
                        res.1@,
                        base64url_nopad(vb),
                    )
                    &&& res.0@ == authorization_url_text(
                        old(self).authorization_endpoint(),
                        old(self).config_view().client_id,
                        old(self).redirect_view(),
                        old(self).config_view().scopes,
                        res.1@,
                        code_challenge_of(base64url_nopad(vb)),
                    )
                },
            final(self).pending_view().contains_key(res.1@),
            has_suffix(
                res.0@,
                "&state="@ + enc(res.1@) + "&code_challenge="@ + enc(
                    code_challenge_of(final(self).pending_view()[res.1@]),
                ) + "&code_challenge_method=S256"@,
            ),
    {
        let verifier_bytes = random_bytes(32);
        let code_verifier = base64url_encode(verifier_bytes.as_slice());
        let digest = sha256(code_verifier.as_str().as_bytes());
        let code_challenge = base64url_encode(digest.as_slice());
        let state_bytes = random_bytes(16);
        let state = base64url_encode(state_bytes.as_slice());
        let scopes = join_spaces_exec(&self.config.scopes);
        let mut url = self.discovery.authorization_endpoint.clone();
        push_str(&mut url, "?response_type=code&client_id=");
        push_str(&mut url, enc_exec(self.config.client_id.as_str()).as_str());
        push_str(&mut url, "&redirect_uri=");
        push_str(&mut url, enc_exec(self.redirect_url.as_str()).as_str());
        push_str(&mut url, "&scope=");
        push_str(&mut url, enc_exec(scopes.as_str()).as_str());
        push_str(&mut url, "&state=");
        push_str(&mut url, enc_exec(state.as_str()).as_str());
        push_str(&mut url, "&code_challenge=");
        push_str(&mut url, enc_exec(code_challenge.as_str()).as_str());
        push_str(&mut url, "&code_challenge_method=S256");
        let ghost v = code_verifier@;
        self.pending.insert(state.clone(), code_verifier);
        assert(code_challenge@ == code_challenge_of(base64url_nopad(verifier_bytes@)));
        proof {
            lemma_authorization_url_carries_state_and_challenge(
                old(self).authorization_endpoint(),
                old(self).config_view().client_id,
                old(self).redirect_view(),
                old(self).config_view().scopes,
                state@,
                code_challenge@,
            );
        }
        (url, state)
    }

    /// Takes the flow pending under `state`, giving its code verifier; a state that
    /// was never issued, or was already used, is refused.
    pub fn take_pending(&mut self, state: &str) -> (res: Result<String, AuthError>)
        requires
            old(self).wf(),
        ensures
            final(self).wf(),
            final(self).config_view() == old(self).config_view(),
            final(self).authorization_endpoint() == old(self).authorization_endpoint(),
            final(self).token_endpoint_view() == old(self).token_endpoint_view(),
            final(self).userinfo_endpoint_view() == old(self).userinfo_endpoint_view(),
            final(self).redirect_view() == old(self).redirect_view(),
            final(self).pending_view() == old(self).pending_view().remove(state@),
            match res {
                Ok(v) => old(self).pending_view().contains_key(state@) && v@ == old(
                    self,
                ).pending_view()[state@],
                Err(e) => !old(self).pending_view().contains_key(state@) && (e matches AuthError::Oidc(
                    m,
                ) && m@ == "Invalid or expired OIDC state"@),
            },
    {
        match self.pending.take(state) {
            Some(v) => Ok(v),
            None => Err(AuthError::Oidc(owned("Invalid or expired OIDC state"))),
        }
    }

    /// The form body of the token request that exchanges `code`, with the flow's verifier.
    pub fn token_request_body(&self, code: &str, code_verifier: &str) -> (res: String)
        ensures
            res@ == token_request_text(
                code@,
                self.redirect_view(),
                self.config_view().client_id,
                self.config_view().client_secret,
                code_verifier@,
            ),
    {
        let mut body = owned("grant_type=authorization_code&code=");
        push_str(&mut body, enc_exec(code).as_str());
        push_str(&mut body, "&redirect_uri=");
        push_str(&mut body, enc_exec(self.redirect_url.as_str()).as_str());
        push_str(&mut body, "&client_id=");
        push_str(&mut body, enc_exec(self.config.client_id.as_str()).as_str());
        push_str(&mut body, "&client_secret=");
        push_str(&mut body, enc_exec(self.config.client_secret.as_str()).as_str());
        push_str(&mut body, "&code_verifier=");
        push_str(&mut body, enc_exec(code_verifier).as_str());
        body
    }

    /// The userinfo endpoint; a provider without one cannot complete a flow.
    pub fn userinfo_endpoint(&self) -> (res: Result<String, AuthError>)
        ensures
            match self.userinfo_endpoint_view() {
                Some(u) => res matches Ok(s) && s@ == u,
                None => res matches Err(AuthError::Oidc(m)) && m@ == "No userinfo endpoint"@,
            },
    {
        match &self.discovery.userinfo_endpoint {
            Some(u) => Ok(u.clone()),
            None => Err(AuthError::Oidc(owned("No userinfo endpoint"))),
        }
    }

    /// The user that the userinfo endpoint describes; the email is required.
    pub fn user_from_info(info: UserInfo) -> (res: Result<AuthenticatedUser, AuthError>)
        ensures
            match info.email {
                None => res matches Err(AuthError::Oidc(m)) && m@
                    == "Email not provided by OIDC provider"@,
                Some(e) => res matches Ok(u) && u.email == e && u.username == info.preferred_username
                    && u.display_name == info.name && u.external_id == Some(info.sub)
                    && u.avatar_url == info.picture && u.provider@ == "oidc"@,
            },
    {
        match info.email {
            None => Err(AuthError::Oidc(owned("Email not provided by OIDC provider"))),
            Some(email) => Ok(
                AuthenticatedUser {
                    email,
                    username: info.preferred_username,
                    display_name: info.name,
                    external_id: Some(info.sub),
                    avatar_url: info.picture,
                    provider: owned("oidc"),
                },
            ),
        }
    }
}

impl AuthProvider for OidcProvider {
    fn provider_type(&self) -> (s: &str)
        ensures
            s@ == "oidc"@,
    {
        "oidc"
    }

    fn name(&self) -> (s: &str)
        ensures
            s@ == self.config_view().name,
    {
        self.config.name.as_str()
    }

    fn info(&self) -> (i: ProviderInfo)
        ensures
            i.name@ == self.config_view().name,
            i.provider_type@ == "oidc"@,
            i.enabled,
    {
        ProviderInfo { name: self.config.name.clone(), provider_type: owned("oidc"), enabled: true }
    }
}

} // verus!
