//! The OAuth token, how one is made from a provider's answer, when it is
//! stale, and its record in the token file.
use vstd::prelude::*;
use vstd::string::*;
use crate::error::AuthError;
use crate::json::{lookup, JsonValue};
use crate::text::{join_words, join_with_spaces};

verus! {

/// An access token with what is known of it.
#[derive(Debug)]
pub struct OAuthToken {
    pub access_token: String,
    pub token_type: String,
    /// Lifetime in seconds, counted from `created_at`.
    pub expires_in: u64,
    pub refresh_token: Option<String>,
    /// Granted scopes, separated by spaces.
    pub scope: String,
    /// Seconds since the Unix epoch at which the token was obtained.
    pub created_at: u64,
}

pub open spec fn opt_view(o: Option<String>) -> Option<Seq<char>> {
    match o {
        Some(s) => Some(s@),
        None => None,
    }
}

impl Clone for OAuthToken {
    fn clone(&self) -> (r: Self)
        ensures
            r == *self,
    {
        OAuthToken {
            access_token: self.access_token.clone(),
            token_type: self.token_type.clone(),
            expires_in: self.expires_in,
            refresh_token: match &self.refresh_token {
                Some(t) => Some(t.clone()),
                None => None,
            },
            scope: self.scope.clone(),
            created_at: self.created_at,
        }
    }
}

impl OAuthToken {
    /// The absolute expiry time, in seconds since the Unix epoch.
    pub open spec fn expires_at_spec(&self) -> int {
        self.created_at + self.expires_in
    }

    /// A usable token: it has an access token, and its expiry time can be
    /// represented.
    pub open spec fn wf(&self) -> bool {
        &&& self.access_token@.len() > 0
        &&& self.expires_at_spec() <= u64::MAX
    }

    /// Two tokens with the same contents.
    pub open spec fn same(&self, other: &OAuthToken) -> bool {
        &&& self.access_token@ == other.access_token@
        &&& self.token_type@ == other.token_type@
        &&& self.expires_in == other.expires_in
        &&& opt_view(self.refresh_token) == opt_view(other.refresh_token)
        &&& self.scope@ == other.scope@
        &&& self.created_at == other.created_at
    }

    /// Stale: the expiry time has been reached.
    pub open spec fn stale_at(&self, now: u64) -> bool {
        now >= self.expires_at_spec()
    }

    pub fn expires_at(&self) -> (r: u64)
        requires
            self.wf(),
        ensures
            r == self.expires_at_spec(),
    {
        self.created_at + self.expires_in
    }

    /// Whether the token is stale at time `now`.
    pub fn is_expired(&self, now: u64) -> (r: bool)
        ensures
            r == self.stale_at(now),
    {
        now >= self.created_at && now - self.created_at >= self.expires_in
    }
}

/// What the provider's token endpoint granted.
#[derive(Debug, Clone)]
pub struct TokenGrant {
    pub access_token: String,
    pub token_type: String,
    pub expires_in: Option<u64>,
    pub refresh_token: Option<String>,
    pub scopes: Option<Vec<String>>,
}

/// The answer of a call to the token endpoint.
#[derive(Debug, Clone)]
pub enum TokenEndpointReply {
    Granted(TokenGrant),
    /// The endpoint answered with a non-success status.
    Rejected { status: u16, body: String },
    /// The answer could not be read as a token response.
    Malformed { detail: String },
    /// No answer came back.
    Unreachable { detail: String },
    /// No answer came back in time.
    TimedOut,
}

pub open spec fn grant_lifetime(g: TokenGrant) -> int {
    match g.expires_in {
        Some(e) => e as int,
        None => 0,
    }
}

pub open spec fn grant_scope(g: TokenGrant) -> Seq<char> {
    match g.scopes {
        Some(v) => join_words(v.deep_view()),
        None => Seq::empty(),
    }
}

/// A grant that gives a usable token when obtained at `now`.
pub open spec fn grant_acceptable(g: TokenGrant, now: u64) -> bool {
    &&& g.access_token@.len() > 0
    &&& now + grant_lifetime(g) <= u64::MAX
}

/// `t` is the token made from grant `g` at time `now`, keeping `previous` as
/// the refresh token when the grant carries none.
pub open spec fn token_from_grant_spec(
    t: OAuthToken,
    g: TokenGrant,
    previous: Option<Seq<char>>,
    now: u64,
) -> bool {
    &&& t.access_token@ == g.access_token@
    &&& t.token_type@ == g.token_type@
    &&& t.expires_in == grant_lifetime(g)
    &&& opt_view(t.refresh_token) == match g.refresh_token {
        Some(r) => Some(r@),
        None => previous,
    }
    &&& t.scope@ == grant_scope(g)
    &&& t.created_at == now
}

/// Makes the token for a grant obtained at `now`. A grant without an access
/// token, or whose expiry time cannot be represented, is a decode error.
pub fn token_from_grant(g: &TokenGrant, previous: Option<&str>, now: u64) -> (r: Result<OAuthToken, AuthError>)
    ensures
        match r {
            Ok(t) => grant_acceptable(*g, now) && t.wf() && token_from_grant_spec(
                t,
                *g,
                match previous {
                    Some(p) => Some(p@),
                    None => None,
                },
                now,
            ),
            Err(e) => !grant_acceptable(*g, now) && e is Decode,
        },
{
    if g.access_token.as_str().unicode_len() == 0 {
        return Err(AuthError::Decode("the token response holds an empty access token".to_string()));
    }
    let lifetime: u64 = match g.expires_in {
        Some(e) => e,
        None => 0,
    };
    if lifetime > u64::MAX - now {
        return Err(AuthError::Decode("the token lifetime is out of range".to_string()));
    }
    let refresh_token = match &g.refresh_token {
        Some(r) => Some(r.clone()),
        None => match previous {
            Some(p) => Some(p.to_string()),
            None => None,
        },
    };
    let scope = match &g.scopes {
        Some(v) => join_with_spaces(v),
        None => String::new(),
    };
    Ok(OAuthToken {
        access_token: g.access_token.clone(),
        token_type: g.token_type.clone(),
        expires_in: lifetime,
        refresh_token,
        scope,
        created_at: now,
    })
}

/// Whether a token read from the token file is discarded when it is stale,
/// or kept so that it can be refreshed on use.
#[derive(Debug, Clone, Copy, PartialEq, Eq, Structural)]
pub enum StalenessPolicy {
    DiscardStale,
    KeepStale,
}

/// Whether a cached token may be handed out under `policy` at `now`.
pub open spec fn usable(t: OAuthToken, policy: StalenessPolicy, now: u64) -> bool {
    policy == StalenessPolicy::KeepStale || !t.stale_at(now)
}

/// A token read from the token file, after the staleness policy.
pub open spec fn loaded_under(loaded: Option<OAuthToken>, policy: StalenessPolicy, now: u64) -> Option<OAuthToken> {
    match loaded {
        Some(t) => if usable(t, policy, now) { Some(t) } else { None },
        None => None,
    }
}

/// Applies the staleness policy to a token read from the token file: under
/// `DiscardStale` a stale token reads as absent; otherwise it is returned
/// unchanged.
pub fn filter_loaded(loaded: Option<OAuthToken>, policy: StalenessPolicy, now: u64) -> (r: Option<OAuthToken>)
    ensures
        r == loaded_under(loaded, policy, now),
{
    match loaded {
        Some(t) => {
            if policy == StalenessPolicy::KeepStale || !t.is_expired(now) {
                Some(t)
            } else {
                None
            }
        },
        None => None,
    }
}

/// Reading a stale token from the token file gives nothing under
/// `DiscardStale` and the very same token under `KeepStale`; reading it
/// again at the same time gives the same answer.
pub proof fn lemma_stale_token_policy(t: OAuthToken, now: u64)
    requires
        t.stale_at(now),
    ensures
        loaded_under(Some(t), StalenessPolicy::DiscardStale, now) is None,
        loaded_under(Some(t), StalenessPolicy::KeepStale, now) == Some(t),
{
}

/// A member that is a string or absent; `None` when it has another type.
/// `null` reads as absent.
pub open spec fn text_member(v: JsonValue, key: Seq<char>) -> Option<Option<Seq<char>>> {
    match v.member(key) {
        None => Some(None),
        Some(JsonValue::Null) => Some(None),
        Some(JsonValue::Str(s)) => Some(Some(s@)),
        _ => None,
    }
}

/// A member that is a non-negative integer or absent; `None` when it has
/// another type. `null` reads as absent.
pub open spec fn number_member(v: JsonValue, key: Seq<char>) -> Option<Option<u64>> {
    match v.member(key) {
        None => Some(None),
        Some(JsonValue::Null) => Some(None),
        Some(JsonValue::Number(n)) => Some(Some(n)),
        _ => None,
    }
}

pub open spec fn text_or(m: Option<Option<Seq<char>>>, default: Seq<char>) -> Seq<char> {
    match m {
        Some(Some(s)) => s,
        _ => default,
    }
}

pub open spec fn number_or_zero(m: Option<Option<u64>>) -> u64 {
    match m {
        Some(Some(n)) => n,
        _ => 0,
    }
}

/// The lifetime that a token record gives: `expires_in`, or else
/// `expires_at - created_at`, or else zero. `None` when the two disagree or
/// the expiry time cannot be represented.
pub open spec fn record_lifetime(v: JsonValue) -> Option<u64> {
    let c = number_or_zero(number_member(v, "created_at"@));
    match (number_member(v, "expires_in"@), number_member(v, "expires_at"@)) {
        (Some(Some(x)), Some(Some(y))) => if y == c + x { Some(x) } else { None },
        (Some(Some(x)), Some(None)) => if c + x <= u64::MAX { Some(x) } else { None },
        (Some(None), Some(Some(y))) => if y >= c { Some((y - c) as u64) } else { None },
        (Some(None), Some(None)) => Some(0),
        _ => None,
    }
}

/// A token record that reads as a usable token.
pub open spec fn token_record_valid(v: JsonValue) -> bool {
    &&& v is Object
    &&& text_member(v, "access_token"@) matches Some(Some(a)) && a.len() > 0
    &&& text_member(v, "token_type"@) is Some
    &&& text_member(v, "refresh_token"@) is Some
    &&& text_member(v, "scope"@) is Some
    &&& number_member(v, "created_at"@) is Some
    &&& record_lifetime(v) is Some
}

/// `t` is the token that record `v` holds. A missing token type reads as
/// `Bearer`, a missing scope as empty, a missing creation time as zero.
pub open spec fn decoded_from(v: JsonValue, t: OAuthToken) -> bool {
    &&& text_member(v, "access_token"@) == Some(Some(t.access_token@))
    &&& t.token_type@ == text_or(text_member(v, "token_type"@), "Bearer"@)
    &&& Some(opt_view(t.refresh_token)) == text_member(v, "refresh_token"@)
    &&& t.scope@ == text_or(text_member(v, "scope"@), Seq::empty())
    &&& t.created_at == number_or_zero(number_member(v, "created_at"@))
    &&& record_lifetime(v) == Some(t.expires_in)
}

/// `v` is the record written for token `t`.
pub open spec fn encodes(v: JsonValue, t: OAuthToken) -> bool {
    &&& v is Object
    &&& text_member(v, "access_token"@) == Some(Some(t.access_token@))
    &&& text_member(v, "token_type"@) == Some(Some(t.token_type@))
    &&& text_member(v, "refresh_token"@) == Some(opt_view(t.refresh_token))
    &&& text_member(v, "scope"@) == Some(Some(t.scope@))
    &&& number_member(v, "created_at"@) == Some(Some(t.created_at))
    &&& number_member(v, "expires_in"@) == Some(Some(t.expires_in))
    &&& number_member(v, "expires_at"@) == Some(Some(t.expires_at_spec() as u64))
}

fn text_field(v: &JsonValue, key: &str) -> (r: Result<Option<String>, ()>)
    ensures
        match r {
            Ok(o) => text_member(*v, key@) == Some(opt_view(o)),
            Err(_) => text_member(*v, key@) is None,
        },
{
    match v.get(key) {
        None => Ok(None),
        Some(JsonValue::Null) => Ok(None),
        Some(JsonValue::Str(s)) => Ok(Some(s.clone())),
        Some(_) => Err(()),
    }
}

fn number_field(v: &JsonValue, key: &str) -> (r: Result<Option<u64>, ()>)
    ensures
        match r {
            Ok(o) => number_member(*v, key@) == Some(o),
            Err(_) => number_member(*v, key@) is None,
        },
{
    match v.get(key) {
        None => Ok(None),
        Some(JsonValue::Null) => Ok(None),
        Some(JsonValue::Number(n)) => Ok(Some(*n)),
        Some(_) => Err(()),
    }
}

fn malformed() -> (r: AuthError)
    ensures
        r is Decode,
{
    AuthError::Decode("the token file does not hold a valid token".to_string())
}

/// The member names of a token record are distinct.
proof fn lemma_record_keys()
    ensures
        "token_type"@ != "access_token"@,
        "expires_in"@ != "access_token"@,
        "expires_in"@ != "token_type"@,
        "refresh_token"@ != "access_token"@,
        "refresh_token"@ != "token_type"@,
        "refresh_token"@ != "expires_in"@,
        "scope"@ != "access_token"@,
        "scope"@ != "token_type"@,
        "scope"@ != "expires_in"@,
        "scope"@ != "refresh_token"@,
        "created_at"@ != "access_token"@,
        "created_at"@ != "token_type"@,
        "created_at"@ != "expires_in"@,
        "created_at"@ != "refresh_token"@,
        "created_at"@ != "scope"@,
        "expires_at"@ != "access_token"@,
        "expires_at"@ != "token_type"@,
        "expires_at"@ != "expires_in"@,
        "expires_at"@ != "refresh_token"@,
        "expires_at"@ != "scope"@,
        "expires_at"@ != "created_at"@,
{
    reveal_strlit("access_token");
    reveal_strlit("token_type");
    reveal_strlit("expires_in");
    reveal_strlit("refresh_token");
    reveal_strlit("scope");
    reveal_strlit("created_at");
    reveal_strlit("expires_at");
    assert("token_type"@.len() != "access_token"@.len());
    assert("expires_in"@.len() != "access_token"@.len());
    assert("expires_in"@[0] != "token_type"@[0]);
    assert("refresh_token"@.len() != "access_token"@.len());
    assert("refresh_token"@.len() != "token_type"@.len());
    assert("refresh_token"@.len() != "expires_in"@.len());
    assert("scope"@.len() != "access_token"@.len());
    assert("scope"@.len() != "token_type"@.len());
    assert("scope"@.len() != "expires_in"@.len());
    assert("scope"@.len() != "refresh_token"@.len());
    assert("created_at"@.len() != "access_token"@.len());
    assert("created_at"@[0] != "token_type"@[0]);
    assert("created_at"@[0] != "expires_in"@[0]);
    assert("created_at"@.len() != "refresh_token"@.len());
    assert("created_at"@.len() != "scope"@.len());
    assert("expires_at"@.len() != "access_token"@.len());
    assert("expires_at"@[0] != "token_type"@[0]);
    assert("expires_at"@[8] != "expires_in"@[8]);
    assert("expires_at"@.len() != "refresh_token"@.len());
    assert("expires_at"@.len() != "scope"@.len());
    assert("expires_at"@[0] != "created_at"@[0]);
}

impl OAuthToken {
    /// The record written to the token file.
    pub fn to_json(&self) -> (r: JsonValue)
        requires
            self.wf(),
        ensures
            encodes(r, *self),
    {
        let refresh = match &self.refresh_token {
            Some(t) => JsonValue::Str(t.clone()),
            None => JsonValue::Null,
        };
        let entries: Vec<(String, JsonValue)> = vec![
            ("access_token".to_string(), JsonValue::Str(self.access_token.clone())),
            ("token_type".to_string(), JsonValue::Str(self.token_type.clone())),
            ("expires_in".to_string(), JsonValue::Number(self.expires_in)),
            ("refresh_token".to_string(), refresh),
            ("scope".to_string(), JsonValue::Str(self.scope.clone())),
            ("created_at".to_string(), JsonValue::Number(self.created_at)),
            ("expires_at".to_string(), JsonValue::Number(self.expires_at())),
        ];
        let r = JsonValue::Object(entries);
        proof {
            lemma_record_keys();
            reveal_with_fuel(lookup, 8);
        }
        r
    }

    /// Reads a token record. Any record that does not satisfy
    /// `token_record_valid` is a decode error.
    pub fn from_json(v: &JsonValue) -> (r: Result<OAuthToken, AuthError>)
        ensures
            match r {
                Ok(t) => token_record_valid(*v) && decoded_from(*v, t) && t.wf(),
                Err(e) => !token_record_valid(*v) && e is Decode,
            },
    {
        match v {
            JsonValue::Object(_) => {},
            _ => return Err(malformed()),
        }
        let access_token = match text_field(v, "access_token") {
            Ok(Some(a)) => a,
            _ => return Err(malformed()),
        };
        if access_token.as_str().unicode_len() == 0 {
            return Err(malformed());
        }
        let token_type = match text_field(v, "token_type") {
            Ok(Some(t)) => t,
            Ok(None) => "Bearer".to_string(),
            Err(_) => return Err(malformed()),
        };
        let refresh_token = match text_field(v, "refresh_token") {
            Ok(o) => o,
            Err(_) => return Err(malformed()),
        };
        let scope = match text_field(v, "scope") {
            Ok(Some(s)) => s,
            Ok(None) => String::new(),
            Err(_) => return Err(malformed()),
        };
        let created_at: u64 = match number_field(v, "created_at") {
            Ok(Some(c)) => c,
            Ok(None) => 0,
            Err(_) => return Err(malformed()),
        };
        let expires_in = match number_field(v, "expires_in") {
            Ok(o) => o,
            Err(_) => return Err(malformed()),
        };
        let expires_at = match number_field(v, "expires_at") {
            Ok(o) => o,
            Err(_) => return Err(malformed()),
        };
        let lifetime: u64 = match (expires_in, expires_at) {
            (Some(x), Some(y)) => {
                if x > u64::MAX - created_at || y != created_at + x {
                    return Err(malformed());
                }
                x
            },
            (Some(x), None) => {
                if x > u64::MAX - created_at {
                    return Err(malformed());
                }
                x
            },
            (None, Some(y)) => {
                if y < created_at {
                    return Err(malformed());
                }
                y - created_at
            },
            (None, None) => 0,
        };
        Ok(OAuthToken { access_token, token_type, expires_in: lifetime, refresh_token, scope, created_at })
    }
}

/// Writing a token's record and reading it back gives the same token:
/// every record that `to_json` produces for a usable token is valid, and the
/// token that `from_json` reads from it equals the one written.
pub proof fn lemma_token_record_round_trip(t: OAuthToken, v: JsonValue, back: OAuthToken)
    requires
        t.wf(),
        encodes(v, t),
        decoded_from(v, back),
    ensures
        token_record_valid(v),
        back.same(&t),
{
}

} // verus!
