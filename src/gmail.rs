//! The authentication guard that every Gmail call passes through.
use vstd::prelude::*;
use vstd::string::*;
use crate::error::AuthError;
use crate::oauth::{refresh_source, OAuthManager};
use crate::token::{usable, OAuthToken};

verus! {

/// Base URL of the Gmail REST API.
pub const GMAIL_API_BASE: &'static str = "https://gmail.googleapis.com/gmail/v1";

/// Whether `m` holds a token that may be used at `now`.
pub open spec fn authenticated_at(m: &OAuthManager, now: u64) -> bool {
    m.cached() matches Some(t) && usable(t, m.policy_spec(), now)
}

/// Whether the guard lets a call through, given the token read from the
/// token file (if the cache had to be filled from it).
pub open spec fn guard_admits(m: &OAuthManager, loaded: Option<OAuthToken>, now: u64) -> bool {
    authenticated_at(m, now) || (loaded matches Some(t) && usable(t, m.policy_spec(), now))
}

/// The guard refuses when neither the cache nor the token file holds a token,
/// and lets calls through once either holds a usable one.
pub proof fn lemma_guard_needs_a_token(m: &OAuthManager, loaded: Option<OAuthToken>, now: u64)
    requires
        m.wf(),
    ensures
        m.cached() is None && loaded is None ==> !guard_admits(m, loaded, now) && !authenticated_at(m, now),
        (m.cached() matches Some(t) && usable(t, m.policy_spec(), now)) ==> authenticated_at(m, now),
        (loaded matches Some(t) && usable(t, m.policy_spec(), now)) ==> guard_admits(m, loaded, now),
{
}

/// What the guard needs before it can decide.
#[derive(Debug, Clone, Copy, PartialEq, Eq, Structural)]
pub enum AuthStep {
    /// The cache holds a usable token.
    Ready,
    /// Read the token file and hand its token to `ensure_authenticated`.
    LoadFromStore,
}

/// The Gmail account the tools act on, behind the authentication guard.
pub struct GmailServer {
    pub user_id: String,
    pub oauth_manager: OAuthManager,
}

impl GmailServer {
    pub open spec fn user_id_spec(&self) -> Seq<char> {
        self.user_id@
    }

    pub open spec fn wf(&self) -> bool {
        self.oauth_manager.wf()
    }

    /// A server acting for the signed-in user (`me`).
    pub fn new(oauth_manager: OAuthManager) -> (r: Self)
        ensures
            r.user_id_spec() == "me"@,
            r.oauth_manager == oauth_manager,
    {
        GmailServer { user_id: "me".to_string(), oauth_manager }
    }

    pub fn user_id(&self) -> (r: &str)
        ensures
            r@ == self.user_id_spec(),
    {
        self.user_id.as_str()
    }

    /// Whether a usable token is cached; derived from the token itself.
    pub fn is_authenticated(&self, now: u64) -> (r: bool)
        ensures
            r == authenticated_at(&self.oauth_manager, now),
    {
        match &self.oauth_manager.get_token_ref() {
            Some(t) => match self.oauth_manager.policy() {
                crate::token::StalenessPolicy::KeepStale => true,
                crate::token::StalenessPolicy::DiscardStale => !t.is_expired(now),
            },
            None => false,
        }
    }

    /// Whether the guard can decide from the cache alone.
    pub fn check_authentication(&self, now: u64) -> (r: AuthStep)
        ensures
            (r == AuthStep::Ready) == authenticated_at(&self.oauth_manager, now),
    {
        if self.is_authenticated(now) {
            AuthStep::Ready
        } else {
            AuthStep::LoadFromStore
        }
    }

    /// The guard. A usable cached token lets the call through at once.
    /// Otherwise `loaded`, the token read from the token file, is installed
    /// when the staleness policy accepts it. With neither, the call is
    /// refused as not authenticated and nothing changes.
    pub fn ensure_authenticated(&mut self, loaded: Option<OAuthToken>, now: u64) -> (r: Result<(), AuthError>)
        requires
            old(self).wf(),
            loaded matches Some(t) ==> t.wf(),
        ensures
            final(self).wf(),
            final(self).user_id_spec() == old(self).user_id_spec(),
            final(self).oauth_manager.same_settings(&old(self).oauth_manager),
            final(self).oauth_manager.pending_states() == old(self).oauth_manager.pending_states(),
            (r is Ok) == guard_admits(&old(self).oauth_manager, loaded, now),
            r is Ok ==> authenticated_at(&final(self).oauth_manager, now),
            !authenticated_at(&old(self).oauth_manager, now) && r is Ok ==> final(self).oauth_manager.cached() == loaded,
            authenticated_at(&old(self).oauth_manager, now) ==> final(self).oauth_manager.cached() == old(self).oauth_manager.cached(),
            r matches Err(e) ==> e is NotAuthenticated && final(self).oauth_manager.cached() == old(self).oauth_manager.cached(),
    {
        if self.is_authenticated(now) {
            return Ok(());
        }
        match loaded {
            Some(t) => {
                let accept = match self.oauth_manager.policy() {
                    crate::token::StalenessPolicy::KeepStale => true,
                    crate::token::StalenessPolicy::DiscardStale => !t.is_expired(now),
                };
                if accept {
                    self.oauth_manager.set_token(t);
                    Ok(())
                } else {
                    Err(AuthError::NotAuthenticated)
                }
            },
            None => Err(AuthError::NotAuthenticated),
        }
    }

    /// Whether a refresh should be attempted before the call is refused: the
    /// guard would refuse, but a refresh token is known (a stale token is
    /// refreshed on use rather than given up).
    pub fn needs_refresh(&self, loaded: &Option<OAuthToken>, now: u64) -> (r: bool)
        ensures
            r == (!guard_admits(&self.oauth_manager, *loaded, now) && refresh_source(
                self.oauth_manager.cached(),
                *loaded,
            ) is Some),
    {
        let admits_loaded = match loaded {
            Some(t) => match self.oauth_manager.policy() {
                crate::token::StalenessPolicy::KeepStale => true,
                crate::token::StalenessPolicy::DiscardStale => !t.is_expired(now),
            },
            None => false,
        };
        if self.is_authenticated(now) || admits_loaded {
            return false;
        }
        let cached_has = match self.oauth_manager.get_token_ref() {
            Some(t) => t.refresh_token.is_some(),
            None => false,
        };
        let loaded_has = match loaded {
            Some(t) => t.refresh_token.is_some(),
            None => false,
        };
        cached_has || loaded_has
    }

    /// The `Authorization` header value for Gmail calls. It runs the guard
    /// first (`ensure_authenticated`, with `loaded` the token read from the
    /// token file when the cache could not answer), then builds the header
    /// from the current token, on every call, so that a refreshed token is
    /// used at once.
    pub fn authenticated_client(&mut self, loaded: Option<OAuthToken>, now: u64) -> (r: Result<String, AuthError>)
        requires
            old(self).wf(),
            loaded matches Some(t) ==> t.wf(),
        ensures
            final(self).wf(),
            final(self).user_id_spec() == old(self).user_id_spec(),
            final(self).oauth_manager.same_settings(&old(self).oauth_manager),
            final(self).oauth_manager.pending_states() == old(self).oauth_manager.pending_states(),
            (r is Ok) == guard_admits(&old(self).oauth_manager, loaded, now),
            r matches Ok(h) ==> (final(self).oauth_manager.cached() matches Some(t) && h@ == "Bearer "@
                + t.access_token@),
            !authenticated_at(&old(self).oauth_manager, now) && r is Ok ==> final(self).oauth_manager.cached()
                == loaded,
            authenticated_at(&old(self).oauth_manager, now) ==> final(self).oauth_manager.cached() == old(
                self,
            ).oauth_manager.cached(),
            r matches Err(e) ==> e is NotAuthenticated && final(self).oauth_manager.cached() == old(
                self,
            ).oauth_manager.cached(),
    {
        self.ensure_authenticated(loaded, now)?;
        match self.oauth_manager.get_token_ref() {
            Some(t) => {
                let mut h = "Bearer ".to_string();
                h.append(t.access_token.as_str());
                Ok(h)
            },
            None => Err(AuthError::NotAuthenticated),
        }
    }
}

} // verus!
