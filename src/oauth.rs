//! The OAuth2 authorization-code lifecycle: authorization URLs with CSRF
//! states, code exchange, single-flight refresh, and the token cache.
use vstd::prelude::*;
use vstd::string::*;
use crate::config::{app_data_dir_spec, get_app_file_path, Config, HttpConfig};
use crate::text::path_join;
use crate::csrf::{fresh_only, holds_fresh, without, CsrfStore};
use crate::error::AuthError;
use crate::token::{grant_lifetime, opt_view, token_from_grant, token_from_grant_spec, grant_acceptable, OAuthToken, StalenessPolicy, TokenEndpointReply, TokenGrant};

verus! {

/// The provider's authorization endpoint.
pub const AUTH_ENDPOINT: &'static str = "https://accounts.google.com/o/oauth2/auth";

/// The provider's token endpoint.
pub const TOKEN_ENDPOINT: &'static str = "https://oauth2.googleapis.com/token";

/// Whether `s` is an absolute URL.
pub uninterp spec fn url_parses(s: Seq<char>) -> bool;

/// The authorization URL that oauth2 builds for these settings and state.
pub uninterp spec fn authorize_url_of(
    endpoint: Seq<char>,
    client_id: Seq<char>,
    redirect: Seq<char>,
    scopes: Seq<Seq<char>>,
    extra: Seq<(Seq<char>, Seq<char>)>,
    state: Seq<char>,
) -> Seq<char>;

/// Relies on url::Url::parse (re-exported by oauth2), which oauth2's
/// endpoint URL types use to accept an endpoint.
#[verifier::external_body]
fn parses_as_url(s: &str) -> (r: bool)
    ensures
        r == url_parses(s@),
{
    oauth2::url::Url::parse(s).is_ok()
}

/// Relies on oauth2's CsrfToken::new_random: 16 random bytes, base64url
/// encoded without padding.
#[verifier::external_body]
fn new_csrf_state() -> (r: String)
    ensures
        r@.len() == 22,
{
    oauth2::CsrfToken::new_random().secret().to_string()
}

/// Relies on oauth2's Client::authorize_url and AuthorizationRequest::url:
/// the endpoint with the query of the authorization request, the given
/// scopes and extra parameters, and `state` as the CSRF state.
#[verifier::external_body]
fn build_authorize_url(
    endpoint: &str,
    client_id: &str,
    redirect: &str,
    scopes: &Vec<String>,
    extra: &Vec<(String, String)>,
    state: &str,
) -> (r: String)
    requires
        url_parses(endpoint@),
        url_parses(redirect@),
    ensures
        r@ == authorize_url_of(endpoint@, client_id@, redirect@, scopes.deep_view(), extra.deep_view(), state@),
{
    let auth_url = oauth2::AuthUrl::new(endpoint.to_string()).expect("a valid URL");
    let redirect_url = oauth2::RedirectUrl::new(redirect.to_string()).expect("a valid URL");
    let client = oauth2::basic::BasicClient::new(oauth2::ClientId::new(client_id.to_string()))
        .set_auth_uri(auth_url)
        .set_redirect_uri(redirect_url);
    let mut request = client
        .authorize_url(|| oauth2::CsrfToken::new(state.to_string()))
        .add_scopes(scopes.iter().map(|s| oauth2::Scope::new(s.clone())));
    for (k, v) in extra.iter() {
        request = request.add_extra_param(k.clone(), v.clone());
    }
    request.url().0.to_string()
}

/// The scopes that every authorization asks for.
pub open spec fn requested_scopes_spec() -> Seq<Seq<char>> {
    seq![
        "https://www.googleapis.com/auth/gmail.modify"@,
        "https://www.googleapis.com/auth/gmail.readonly"@,
        "https://www.googleapis.com/auth/userinfo.email"@,
    ]
}

/// Extra parameters asking for offline access and forced consent, so that a
/// refresh token is issued on every authorization.
pub open spec fn authorization_extras_spec() -> Seq<(Seq<char>, Seq<char>)> {
    seq![("access_type"@, "offline"@), ("prompt"@, "consent"@)]
}

pub fn requested_scopes() -> (r: Vec<String>)
    ensures
        r.deep_view() == requested_scopes_spec(),
{
    let r = vec![
        "https://www.googleapis.com/auth/gmail.modify".to_string(),
        "https://www.googleapis.com/auth/gmail.readonly".to_string(),
        "https://www.googleapis.com/auth/userinfo.email".to_string(),
    ];
    assert(r.deep_view() =~= requested_scopes_spec());
    r
}

pub fn authorization_extras() -> (r: Vec<(String, String)>)
    ensures
        r.deep_view() == authorization_extras_spec(),
{
    let r = vec![
        ("access_type".to_string(), "offline".to_string()),
        ("prompt".to_string(), "consent".to_string()),
    ];
    assert(r.deep_view() =~= authorization_extras_spec());
    r
}

/// What a caller that wants a refresh does next.
#[derive(Debug)]
pub enum RefreshStep {
    /// Call the token endpoint with this refresh token, then report the
    /// outcome with `complete_refresh`.
    Start { refresh_token: String, flight: u64 },
    /// Refresh `flight` is already running: wait for it, then read its
    /// outcome with `refresh_outcome`.
    Join { flight: u64 },
}

/// The token a refresh starts from: the cached one when it has a refresh
/// token, else the one read from the token file when that has one.
pub open spec fn refresh_source(cached: Option<OAuthToken>, loaded: Option<OAuthToken>) -> Option<OAuthToken> {
    if cached matches Some(t) && t.refresh_token is Some {
        cached
    } else if loaded matches Some(t) && t.refresh_token is Some {
        loaded
    } else {
        None
    }
}

/// The result of a token endpoint call: the new token, or the error that the
/// reply stands for.
pub open spec fn settled(
    r: Result<OAuthToken, AuthError>,
    reply: TokenEndpointReply,
    previous: Option<Seq<char>>,
    now: u64,
) -> bool {
    match reply {
        TokenEndpointReply::Granted(g) => match r {
            Ok(t) => grant_acceptable(g, now) && t.wf() && token_from_grant_spec(t, g, previous, now),
            Err(e) => !grant_acceptable(g, now) && e is Decode,
        },
        TokenEndpointReply::Rejected { status, body } => (r matches Err(
            AuthError::Provider { status: s, body: b },
        ) && s == status && b@ == body@),
        TokenEndpointReply::Malformed { .. } => r matches Err(e) && e is Decode,
        TokenEndpointReply::Unreachable { .. } => r matches Err(e) && e is Transport,
        TokenEndpointReply::TimedOut => r matches Err(e) && e is Timeout,
    }
}

fn settle(reply: &TokenEndpointReply, previous: Option<&str>, now: u64) -> (r: Result<OAuthToken, AuthError>)
    ensures
        settled(r, *reply, match previous {
            Some(p) => Some(p@),
            None => None,
        }, now),
{
    match reply {
        TokenEndpointReply::Granted(g) => token_from_grant(g, previous, now),
        TokenEndpointReply::Rejected { status, body } => Err(AuthError::Provider { status: *status, body: body.clone() }),
        TokenEndpointReply::Malformed { detail } => Err(AuthError::Decode(detail.clone())),
        TokenEndpointReply::Unreachable { detail } => Err(AuthError::Transport(detail.clone())),
        TokenEndpointReply::TimedOut => Err(AuthError::Timeout),
    }
}

/// A successful authorization-code exchange yields a token created at the
/// time of the exchange whose expiry time is exactly its creation time plus
/// the granted lifetime, and that expiry time is representable.
pub proof fn lemma_exchange_expiry(reply: TokenEndpointReply, now: u64, r: Result<OAuthToken, AuthError>)
    requires
        settled(r, reply, None, now),
        r is Ok,
    ensures
        reply matches TokenEndpointReply::Granted(g) && r matches Ok(t) && t.created_at == now
            && t.expires_in == grant_lifetime(g) && t.expires_at_spec() == t.created_at + t.expires_in
            && t.expires_at_spec() <= u64::MAX && t.access_token@.len() > 0,
{
}

/// Owner of the process-wide token cache and of the CSRF states.
pub struct OAuthManager {
    client_id: String,
    client_secret: String,
    redirect_url: String,
    token_file: String,
    policy: StalenessPolicy,
    token: Option<OAuthToken>,
    refreshing: bool,
    flight: u64,
    last_refresh: Option<(u64, Result<OAuthToken, AuthError>)>,
    csrf: CsrfStore,
}

impl OAuthManager {
    /// The cached token.
    pub closed spec fn cached(&self) -> Option<OAuthToken> {
        self.token
    }

    /// Whether a refresh has been started and not yet finished.
    pub closed spec fn refresh_in_flight(&self) -> bool {
        self.refreshing
    }

    /// The number of the latest refresh started.
    pub closed spec fn current_flight(&self) -> u64 {
        self.flight
    }

    /// The latest finished refresh and its outcome.
    pub closed spec fn recorded_refresh(&self) -> Option<(u64, Result<OAuthToken, AuthError>)> {
        self.last_refresh
    }

    /// The CSRF states handed out and not yet used.
    pub closed spec fn pending_states(&self) -> Seq<(Seq<char>, u64)> {
        self.csrf@
    }

    pub closed spec fn client_id_spec(&self) -> Seq<char> {
        self.client_id@
    }

    pub closed spec fn client_secret_spec(&self) -> Seq<char> {
        self.client_secret@
    }

    pub closed spec fn redirect_spec(&self) -> Seq<char> {
        self.redirect_url@
    }

    pub closed spec fn token_file_spec(&self) -> Seq<char> {
        self.token_file@
    }

    pub closed spec fn policy_spec(&self) -> StalenessPolicy {
        self.policy
    }

    /// The manager's invariant: the endpoints are valid URLs and a cached
    /// token is usable.
    pub closed spec fn wf(&self) -> bool {
        &&& url_parses(AUTH_ENDPOINT@)
        &&& url_parses(TOKEN_ENDPOINT@)
        &&& url_parses(self.redirect_url@)
        &&& (self.token matches Some(t) ==> t.wf())
    }

    /// Two managers that differ at most in their token cache and refresh
    /// state.
    pub open spec fn same_settings(&self, other: &OAuthManager) -> bool {
        &&& self.client_id_spec() == other.client_id_spec()
        &&& self.client_secret_spec() == other.client_secret_spec()
        &&& self.redirect_spec() == other.redirect_spec()
        &&& self.token_file_spec() == other.token_file_spec()
        &&& self.policy_spec() == other.policy_spec()
    }

    /// Whatever a reader of the cache sees is a complete token: every
    /// operation leaves the manager well formed, and a well-formed manager
    /// never holds a token with an empty access token.
    pub proof fn lemma_cached_token_complete(&self)
        requires
            self.wf(),
        ensures
            self.cached() matches Some(t) ==> t.access_token@.len() > 0 && t.wf(),
    {
    }

    /// A manager with an empty cache. Fails with a configuration error when
    /// the client id or secret is missing, or an endpoint or the redirect URL
    /// is not a valid URL.
    pub fn new(config: &Config, http_config: &HttpConfig, home: Option<&str>, policy: StalenessPolicy) -> (r: Result<Self, AuthError>)
        ensures
            match r {
                Ok(m) => {
                    &&& m.wf()
                    &&& m.cached() is None
                    &&& !m.refresh_in_flight()
                    &&& m.pending_states().len() == 0
                    &&& config.gmail_client_id matches Some(id) && m.client_id_spec() == id@
                    &&& config.gmail_client_secret matches Some(sec) && m.client_secret_spec() == sec@
                    &&& m.redirect_spec() == http_config.redirect_url_spec()
                    &&& m.token_file_spec() == path_join(app_data_dir_spec(config.configured_dir(), match home {
                        Some(h) => Some(h@),
                        None => None,
                    }), "token.json"@)
                    &&& m.policy_spec() == policy
                },
                Err(e) => {
                    &&& e is Configuration
                    &&& (config.gmail_client_id is None || config.gmail_client_secret is None
                        || !url_parses(AUTH_ENDPOINT@) || !url_parses(TOKEN_ENDPOINT@)
                        || !url_parses(http_config.redirect_url_spec()))
                },
            },
    {
        let client_id = match &config.gmail_client_id {
            Some(id) => id.clone(),
            None => return Err(AuthError::Configuration("GMAIL_CLIENT_ID not set".to_string())),
        };
        let client_secret = match &config.gmail_client_secret {
            Some(s) => s.clone(),
            None => return Err(AuthError::Configuration("GMAIL_CLIENT_SECRET not set".to_string())),
        };
        let redirect_url = http_config.oauth_redirect_url();
        if !parses_as_url(AUTH_ENDPOINT) || !parses_as_url(TOKEN_ENDPOINT) {
            return Err(AuthError::Configuration("invalid provider endpoint".to_string()));
        }
        if !parses_as_url(redirect_url.as_str()) {
            return Err(AuthError::Configuration("invalid OAuth redirect URL".to_string()));
        }
        let token_file = get_app_file_path(config, home, "token.json");
        Ok(OAuthManager {
            client_id,
            client_secret,
            redirect_url,
            token_file,
            policy,
            token: None,
            refreshing: false,
            flight: 0,
            last_refresh: None,
            csrf: CsrfStore::new(),
        })
    }

    pub fn client_id(&self) -> (r: &str)
        ensures
            r@ == self.client_id_spec(),
    {
        self.client_id.as_str()
    }

    pub fn client_secret(&self) -> (r: &str)
        ensures
            r@ == self.client_secret_spec(),
    {
        self.client_secret.as_str()
    }

    pub fn redirect_url(&self) -> (r: &str)
        ensures
            r@ == self.redirect_spec(),
    {
        self.redirect_url.as_str()
    }

    /// Where the token file lives.
    pub fn token_file_path(&self) -> (r: &str)
        ensures
            r@ == self.token_file_spec(),
    {
        self.token_file.as_str()
    }

    pub fn policy(&self) -> (r: StalenessPolicy)
        ensures
            r == self.policy_spec(),
    {
        self.policy
    }

    /// A fresh authorization URL and its CSRF state. The state is new and
    /// random, and is recorded as pending until it is used or goes stale.
    pub fn get_authorization_url(&mut self, now: u64) -> (r: (String, String))
        requires
            old(self).wf(),
        ensures
            final(self).wf(),
            r.0@ == authorize_url_of(
                AUTH_ENDPOINT@,
                old(self).client_id_spec(),
                old(self).redirect_spec(),
                requested_scopes_spec(),
                authorization_extras_spec(),
                r.1@,
            ),
            r.1@.len() == 22,
            final(self).pending_states() == fresh_only(old(self).pending_states(), now).push((r.1@, now)),
            final(self).cached() == old(self).cached(),
            final(self).refresh_in_flight() == old(self).refresh_in_flight(),
            final(self).same_settings(old(self)),
    {
        let state = new_csrf_state();
        let scopes = requested_scopes();
        let extras = authorization_extras();
        let url = build_authorize_url(
            AUTH_ENDPOINT,
            self.client_id.as_str(),
            self.redirect_url.as_str(),
            &scopes,
            &extras,
            state.as_str(),
        );
        self.csrf.issue(state.clone(), now);
        (url, state)
    }

    /// Checks the `state` of a callback: true exactly when it was issued and
    /// is still fresh. Either way it cannot be used again.
    pub fn verify_state(&mut self, state: &str, now: u64) -> (r: bool)
        requires
            old(self).wf(),
        ensures
            final(self).wf(),
            r == holds_fresh(old(self).pending_states(), state@, now),
            final(self).pending_states() == without(old(self).pending_states(), state@),
            final(self).cached() == old(self).cached(),
            final(self).refresh_in_flight() == old(self).refresh_in_flight(),
            final(self).same_settings(old(self)),
    {
        self.csrf.consume(state, now)
    }

    /// The token that the token endpoint's reply to an authorization-code
    /// exchange gives, obtained at `now`, or the error the reply stands for.
    /// The cache is not touched: the caller stores the token and then
    /// installs it with `set_token`.
    pub fn exchange_code(&self, reply: &TokenEndpointReply, now: u64) -> (r: Result<OAuthToken, AuthError>)
        ensures
            settled(r, *reply, None, now),
    {
        settle(reply, None, now)
    }

    /// Asks to refresh the token. Only one refresh runs at a time: while one
    /// is in flight every other caller is told to join it. A refresh starts
    /// from the cached token, or, when that has no refresh token, from
    /// `loaded`, the token read from the token file, which is then cached.
    pub fn begin_refresh(&mut self, loaded: Option<OAuthToken>) -> (r: Result<RefreshStep, AuthError>)
        requires
            old(self).wf(),
            loaded matches Some(t) ==> t.wf(),
        ensures
            final(self).wf(),
            final(self).pending_states() == old(self).pending_states(),
            final(self).same_settings(old(self)),
            final(self).recorded_refresh() == old(self).recorded_refresh(),
            old(self).refresh_in_flight() ==> {
                &&& r matches Ok(RefreshStep::Join { flight: f }) && f == old(self).current_flight()
                &&& final(self).refresh_in_flight()
                &&& final(self).cached() == old(self).cached()
                &&& final(self).current_flight() == old(self).current_flight()
            },
            !old(self).refresh_in_flight() ==> match refresh_source(old(self).cached(), loaded) {
                Some(t) => {
                    &&& t.refresh_token matches Some(rt) && r matches Ok(
                        RefreshStep::Start { refresh_token: s, flight: f },
                    ) && s@ == rt@ && f == final(self).current_flight()
                    &&& final(self).current_flight() != old(self).current_flight()
                    &&& final(self).refresh_in_flight()
                    &&& final(self).cached() == Some(t)
                },
                None => {
                    &&& r matches Err(e) && e is NoRefreshToken
                    &&& !final(self).refresh_in_flight()
                    &&& final(self).cached() == old(self).cached()
                    &&& final(self).current_flight() == old(self).current_flight()
                },
            },
    {
        if self.refreshing {
            return Ok(RefreshStep::Join { flight: self.flight });
        }
        let cached_has = match &self.token {
            Some(t) => t.refresh_token.is_some(),
            None => false,
        };
        if !cached_has {
            match loaded {
                Some(t) => {
                    if t.refresh_token.is_some() {
                        self.token = Some(t);
                    } else {
                        return Err(AuthError::NoRefreshToken);
                    }
                },
                None => return Err(AuthError::NoRefreshToken),
            }
        }
        match &self.token {
            Some(t) => match &t.refresh_token {
                Some(rt) => {
                    let refresh_token = rt.clone();
                    self.refreshing = true;
                    self.flight = if self.flight == u64::MAX { 0 } else { self.flight + 1 };
                    Ok(RefreshStep::Start { refresh_token, flight: self.flight })
                },
                None => Err(AuthError::NoRefreshToken),
            },
            None => Err(AuthError::NoRefreshToken),
        }
    }

    /// The token that the reply to a refresh gives, obtained at `now`. When
    /// the provider sends no new refresh token the cached one is kept.
    pub fn refresh_token(&self, reply: &TokenEndpointReply, now: u64) -> (r: Result<OAuthToken, AuthError>)
        ensures
            settled(r, *reply, match self.cached() {
                Some(t) => opt_view(t.refresh_token),
                None => None,
            }, now),
    {
        let previous: Option<&str> = match &self.token {
            Some(t) => match &t.refresh_token {
                Some(rt) => Some(rt.as_str()),
                None => None,
            },
            None => None,
        };
        settle(reply, previous, now)
    }

    /// Ends the refresh in flight with `outcome`: a new token replaces the
    /// cached one, an error leaves the cache as it was. The outcome is
    /// recorded for the callers that joined this refresh.
    pub fn complete_refresh(&mut self, outcome: Result<OAuthToken, AuthError>)
        requires
            old(self).wf(),
            old(self).refresh_in_flight(),
            outcome matches Ok(t) ==> t.wf(),
        ensures
            final(self).wf(),
            !final(self).refresh_in_flight(),
            final(self).current_flight() == old(self).current_flight(),
            final(self).recorded_refresh() == Some((old(self).current_flight(), outcome)),
            final(self).cached() == match outcome {
                Ok(t) => Some(t),
                Err(_) => old(self).cached(),
            },
            final(self).pending_states() == old(self).pending_states(),
            final(self).same_settings(old(self)),
    {
        match &outcome {
            Ok(t) => {
                self.token = Some(t.clone());
            },
            Err(_) => {},
        }
        self.refreshing = false;
        self.last_refresh = Some((self.flight, outcome));
    }

    /// The outcome of refresh `flight`, the same one its starter reported;
    /// `None` when that refresh is not the latest finished one.
    pub fn refresh_outcome(&self, flight: u64) -> (r: Option<Result<OAuthToken, AuthError>>)
        ensures
            r == match self.recorded_refresh() {
                Some((f, o)) => if f == flight { Some(o) } else { None },
                None => None,
            },
    {
        match &self.last_refresh {
            Some((f, o)) => {
                if *f == flight {
                    Some(match o {
                        Ok(t) => Ok(t.clone()),
                        Err(e) => Err(e.clone()),
                    })
                } else {
                    None
                }
            },
            None => None,
        }
    }

    /// The cached token.
    pub fn get_token(&self) -> (r: Option<OAuthToken>)
        requires
            self.wf(),
        ensures
            r == self.cached(),
            (r matches Some(t) ==> t.wf()),
    {
        match &self.token {
            Some(t) => Some(t.clone()),
            None => None,
        }
    }

    /// The cached token, borrowed.
    pub fn get_token_ref(&self) -> (r: Option<&OAuthToken>)
        ensures
            match r {
                Some(t) => self.cached() == Some(*t),
                None => self.cached() is None,
            },
    {
        match &self.token {
            Some(t) => Some(t),
            None => None,
        }
    }

    /// Replaces the cached token in one step.
    pub fn set_token(&mut self, token: OAuthToken)
        requires
            old(self).wf(),
            token.wf(),
        ensures
            final(self).wf(),
            final(self).cached() == Some(token),
            final(self).refresh_in_flight() == old(self).refresh_in_flight(),
            final(self).current_flight() == old(self).current_flight(),
            final(self).recorded_refresh() == old(self).recorded_refresh(),
            final(self).pending_states() == old(self).pending_states(),
            final(self).same_settings(old(self)),
    {
        self.token = Some(token);
    }
}

} // verus!
