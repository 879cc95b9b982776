//! Errors of the authorization core.
use vstd::prelude::*;

verus! {

/// What can go wrong while obtaining, keeping or using a token.
#[derive(Debug)]
pub enum AuthError {
    /// Client id, client secret or an endpoint URL is missing or invalid.
    Configuration(String),
    /// No usable token is available; the user has to log in again.
    NotAuthenticated,
    /// The provider answered with a non-success status.
    Provider { status: u16, body: String },
    /// A response or a stored token could not be decoded.
    Decode(String),
    /// The request did not reach the provider or no answer came back.
    Transport(String),
    /// The request ran over its time limit.
    Timeout,
    /// A refresh was asked for, but no refresh token is known.
    NoRefreshToken,
    /// Reading or writing the token file failed.
    Persistence(String),
}

impl Clone for AuthError {
    fn clone(&self) -> (r: Self)
        ensures
            r == *self,
    {
        match self {
            AuthError::Configuration(m) => AuthError::Configuration(m.clone()),
            AuthError::NotAuthenticated => AuthError::NotAuthenticated,
            AuthError::Provider { status, body } => AuthError::Provider { status: *status, body: body.clone() },
            AuthError::Decode(m) => AuthError::Decode(m.clone()),
            AuthError::Transport(m) => AuthError::Transport(m.clone()),
            AuthError::Timeout => AuthError::Timeout,
            AuthError::NoRefreshToken => AuthError::NoRefreshToken,
            AuthError::Persistence(m) => AuthError::Persistence(m.clone()),
        }
    }
}

impl AuthError {
    /// A message that can be shown to a caller; it never holds a token.
    pub fn message(&self) -> (r: String)
        ensures
            r@ == match self {
                AuthError::Configuration(m) => "configuration error: "@ + m@,
                AuthError::NotAuthenticated => "not authenticated; visit the login endpoint"@,
                AuthError::Provider { status: _, body } => "provider error: "@ + body@,
                AuthError::Decode(m) => "decode error: "@ + m@,
                AuthError::Transport(m) => "request failed: "@ + m@,
                AuthError::Timeout => "request timed out"@,
                AuthError::NoRefreshToken => "no refresh token found"@,
                AuthError::Persistence(m) => "token storage error: "@ + m@,
            },
    {
        match self {
            AuthError::Configuration(m) => {
                let mut s = "configuration error: ".to_string();
                s.append(m.as_str());
                s
            },
            AuthError::NotAuthenticated => "not authenticated; visit the login endpoint".to_string(),
            AuthError::Provider { status: _, body } => {
                let mut s = "provider error: ".to_string();
                s.append(body.as_str());
                s
            },
            AuthError::Decode(m) => {
                let mut s = "decode error: ".to_string();
                s.append(m.as_str());
                s
            },
            AuthError::Transport(m) => {
                let mut s = "request failed: ".to_string();
                s.append(m.as_str());
                s
            },
            AuthError::Timeout => "request timed out".to_string(),
            AuthError::NoRefreshToken => "no refresh token found".to_string(),
            AuthError::Persistence(m) => {
                let mut s = "token storage error: ".to_string();
                s.append(m.as_str());
                s
            },
        }
    }
}

} // verus!
