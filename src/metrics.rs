//! Token status figures exported for monitoring.
use vstd::prelude::*;
use crate::token::OAuthToken;

verus! {

/// The state of the current token as monitoring sees it.
#[derive(Debug)]
pub struct OAuthMetrics {
    token_last_refreshed_timestamp: u64,
    token_expiration_timestamp: u64,
    token_exists: u64,
}

impl OAuthMetrics {
    pub closed spec fn last_refreshed(&self) -> u64 {
        self.token_last_refreshed_timestamp
    }

    pub closed spec fn expiration(&self) -> u64 {
        self.token_expiration_timestamp
    }

    pub closed spec fn exists_flag(&self) -> u64 {
        self.token_exists
    }

    /// All figures start at zero.
    pub fn new() -> (r: Self)
        ensures
            r.last_refreshed() == 0,
            r.expiration() == 0,
            r.exists_flag() == 0,
    {
        OAuthMetrics { token_last_refreshed_timestamp: 0, token_expiration_timestamp: 0, token_exists: 0 }
    }

    /// Records the current token: its creation and expiry times and that it
    /// exists. Without a token only the existence flag drops to zero; the
    /// times of the last token stay.
    pub fn update_token_metrics(&mut self, token: Option<&OAuthToken>)
        requires
            token matches Some(t) ==> t.expires_at_spec() <= u64::MAX,
        ensures
            match token {
                Some(t) => {
                    &&& final(self).last_refreshed() == t.created_at
                    &&& final(self).expiration() == t.expires_at_spec()
                    &&& final(self).exists_flag() == 1
                },
                None => {
                    &&& final(self).last_refreshed() == old(self).last_refreshed()
                    &&& final(self).expiration() == old(self).expiration()
                    &&& final(self).exists_flag() == 0
                },
            },
    {
        match token {
            Some(t) => {
                self.token_last_refreshed_timestamp = t.created_at;
                self.token_expiration_timestamp = t.created_at + t.expires_in;
                self.token_exists = 1;
            },
            None => {
                self.token_exists = 0;
            },
        }
    }

    pub fn token_last_refreshed_timestamp(&self) -> (r: u64)
        ensures
            r == self.last_refreshed(),
    {
        self.token_last_refreshed_timestamp
    }

    pub fn token_expiration_timestamp(&self) -> (r: u64)
        ensures
            r == self.expiration(),
    {
        self.token_expiration_timestamp
    }

    pub fn token_exists(&self) -> (r: u64)
        ensures
            r == self.exists_flag(),
    {
        self.token_exists
    }
}

} // verus!
