use gmail_mcp_server::config::{Config, HttpConfig};
use gmail_mcp_server::error::AuthError;
use gmail_mcp_server::gmail::{AuthStep, GmailServer};
use gmail_mcp_server::json::JsonValue;
use gmail_mcp_server::oauth::{OAuthManager, RefreshStep};
use gmail_mcp_server::token::{
    filter_loaded, token_from_grant, OAuthToken, StalenessPolicy, TokenEndpointReply, TokenGrant,
};

fn config() -> Config {
    Config {
        gmail_client_id: Some("test_client_id".to_string()),
        gmail_client_secret: Some("test_client_secret".to_string()),
        app_data_dir: Some("/data".to_string()),
    }
}

fn manager(policy: StalenessPolicy) -> OAuthManager {
    OAuthManager::new(&config(), &HttpConfig::default(), None, policy).unwrap()
}

fn token(access: &str, expires_in: u64, created_at: u64, refresh: Option<&str>) -> OAuthToken {
    OAuthToken {
        access_token: access.to_string(),
        token_type: "Bearer".to_string(),
        expires_in,
        refresh_token: refresh.map(|r| r.to_string()),
        scope: "test_scope".to_string(),
        created_at,
    }
}

fn grant(access: &str, expires_in: Option<u64>, refresh: Option<&str>) -> TokenGrant {
    TokenGrant {
        access_token: access.to_string(),
        token_type: "Bearer".to_string(),
        expires_in,
        refresh_token: refresh.map(|r| r.to_string()),
        scopes: Some(vec!["a".to_string(), "b".to_string()]),
    }
}

fn same(a: &OAuthToken, b: &OAuthToken) -> bool {
    a.access_token == b.access_token
        && a.token_type == b.token_type
        && a.expires_in == b.expires_in
        && a.refresh_token == b.refresh_token
        && a.scope == b.scope
        && a.created_at == b.created_at
}

#[test]
fn manager_requires_client_credentials() {
    let mut c = config();
    c.gmail_client_id = None;
    match OAuthManager::new(&c, &HttpConfig::default(), None, StalenessPolicy::DiscardStale) {
        Err(AuthError::Configuration(_)) => {}
        _ => panic!("expected a configuration error"),
    }
    let mut c = config();
    c.gmail_client_secret = None;
    assert!(OAuthManager::new(&c, &HttpConfig::default(), None, StalenessPolicy::DiscardStale).is_err());
    let bad = HttpConfig { oauth_redirect_url: Some("not a url".to_string()), ..Default::default() };
    assert!(OAuthManager::new(&config(), &bad, None, StalenessPolicy::DiscardStale).is_err());
}

#[test]
fn manager_settings() {
    let m = manager(StalenessPolicy::DiscardStale);
    assert_eq!(m.client_id(), "test_client_id");
    assert_eq!(m.redirect_url(), "http://localhost:8080/auth/callback");
    assert_eq!(m.token_file_path(), "/data/token.json");
    assert!(m.get_token().is_none());
}

#[test]
fn authorization_url_carries_request_parameters() {
    let mut m = manager(StalenessPolicy::DiscardStale);
    let (url, state) = m.get_authorization_url(1000);
    assert_eq!(state.len(), 22);
    assert!(url.starts_with("https://accounts.google.com/o/oauth2/auth?"));
    assert!(url.contains("response_type=code"));
    assert!(url.contains("client_id=test_client_id"));
    assert!(url.contains(&format!("state={}", state)));
    assert!(url.contains("redirect_uri=http%3A%2F%2Flocalhost%3A8080%2Fauth%2Fcallback"));
    assert!(url.contains("gmail.modify"));
    assert!(url.contains("userinfo.email"));
    assert!(url.contains("access_type=offline"));
    assert!(url.contains("prompt=consent"));
    let (_, other) = m.get_authorization_url(1001);
    assert_ne!(state, other);
}

#[test]
fn csrf_state_is_single_use_and_time_bounded() {
    let mut m = manager(StalenessPolicy::DiscardStale);
    let (_, state) = m.get_authorization_url(1000);
    assert!(!m.verify_state("forged", 1000));
    assert!(m.verify_state(&state, 1600));
    assert!(!m.verify_state(&state, 1600));
    let (_, late) = m.get_authorization_url(2000);
    assert!(!m.verify_state(&late, 2601));
}

#[test]
fn exchange_yields_token_with_exact_expiry() {
    let m = manager(StalenessPolicy::DiscardStale);
    let reply = TokenEndpointReply::Granted(grant("A", Some(3600), Some("R")));
    let t = m.exchange_code(&reply, 1000).unwrap();
    assert_eq!(t.access_token, "A");
    assert_eq!(t.created_at, 1000);
    assert_eq!(t.expires_in, 3600);
    assert_eq!(t.expires_at(), t.created_at + t.expires_in);
    assert_eq!(t.expires_at(), 4600);
    assert_eq!(t.refresh_token.as_deref(), Some("R"));
    assert_eq!(t.scope, "a b");
}

#[test]
fn exchange_with_bad_code_is_a_provider_error_and_keeps_cache() {
    let mut m = manager(StalenessPolicy::DiscardStale);
    m.set_token(token("A", 3600, 1000, None));
    let reply = TokenEndpointReply::Rejected { status: 400, body: "{\"error\":\"invalid_grant\"}".to_string() };
    match m.exchange_code(&reply, 2000) {
        Err(AuthError::Provider { status, body }) => {
            assert_eq!(status, 400);
            assert!(body.contains("invalid_grant"));
        }
        _ => panic!("expected a provider error"),
    }
    assert!(same(&m.get_token().unwrap(), &token("A", 3600, 1000, None)));
}

#[test]
fn exchange_failures_map_to_distinct_errors() {
    let m = manager(StalenessPolicy::DiscardStale);
    let r = m.exchange_code(&TokenEndpointReply::Malformed { detail: "x".to_string() }, 1);
    assert!(matches!(r, Err(AuthError::Decode(_))));
    let r = m.exchange_code(&TokenEndpointReply::Unreachable { detail: "x".to_string() }, 1);
    assert!(matches!(r, Err(AuthError::Transport(_))));
    assert!(matches!(m.exchange_code(&TokenEndpointReply::TimedOut, 1), Err(AuthError::Timeout)));
    let empty = TokenEndpointReply::Granted(grant("", Some(10), None));
    assert!(matches!(m.exchange_code(&empty, 1), Err(AuthError::Decode(_))));
    let overflow = TokenEndpointReply::Granted(grant("A", Some(u64::MAX), None));
    assert!(matches!(m.exchange_code(&overflow, 1), Err(AuthError::Decode(_))));
}

#[test]
fn grant_without_lifetime_or_scopes() {
    let g = TokenGrant {
        access_token: "A".to_string(),
        token_type: "bearer".to_string(),
        expires_in: None,
        refresh_token: None,
        scopes: None,
    };
    let t = token_from_grant(&g, Some("old"), 50).unwrap();
    assert_eq!(t.expires_in, 0);
    assert_eq!(t.scope, "");
    assert_eq!(t.refresh_token.as_deref(), Some("old"));
}

#[test]
fn refresh_is_single_flight_and_keeps_refresh_token() {
    let mut m = manager(StalenessPolicy::DiscardStale);
    assert!(matches!(m.begin_refresh(None), Err(AuthError::NoRefreshToken)));
    m.set_token(token("A", 3600, 1000, Some("R")));
    let flight = match m.begin_refresh(None) {
        Ok(RefreshStep::Start { refresh_token, flight }) => {
            assert_eq!(refresh_token, "R");
            flight
        }
        _ => panic!("expected to start a refresh"),
    };
    match m.begin_refresh(None) {
        Ok(RefreshStep::Join { flight: joined }) => assert_eq!(joined, flight),
        _ => panic!("expected to join the refresh"),
    }
    let reply = TokenEndpointReply::Granted(grant("B", Some(3600), None));
    let t = m.refresh_token(&reply, 5000).unwrap();
    assert_eq!(t.access_token, "B");
    assert_eq!(t.refresh_token.as_deref(), Some("R"));
    m.complete_refresh(Ok(t.clone()));
    assert!(same(&m.refresh_outcome(flight).unwrap().unwrap(), &t));
    assert_eq!(m.get_token().unwrap().access_token, "B");
    assert!(m.refresh_outcome(flight + 1).is_none());
}

#[test]
fn failed_refresh_outcome_is_shared_and_keeps_cache() {
    let mut m = manager(StalenessPolicy::DiscardStale);
    m.set_token(token("A", 3600, 1000, Some("R")));
    let flight = match m.begin_refresh(None) {
        Ok(RefreshStep::Start { flight, .. }) => flight,
        _ => panic!("expected to start a refresh"),
    };
    let reply = TokenEndpointReply::Rejected { status: 400, body: "invalid_grant".to_string() };
    let outcome = m.refresh_token(&reply, 5000);
    m.complete_refresh(outcome);
    match m.refresh_outcome(flight) {
        Some(Err(AuthError::Provider { status, .. })) => assert_eq!(status, 400),
        _ => panic!("joiners must see the same failure"),
    }
    assert_eq!(m.get_token().unwrap().access_token, "A");
    assert!(matches!(m.begin_refresh(None), Ok(RefreshStep::Start { .. })));
}

#[test]
fn refresh_starts_from_token_file_when_cache_is_empty() {
    let mut m = manager(StalenessPolicy::DiscardStale);
    let persisted = token("A", 10, 0, Some("P"));
    match m.begin_refresh(Some(persisted)) {
        Ok(RefreshStep::Start { refresh_token, .. }) => assert_eq!(refresh_token, "P"),
        _ => panic!("expected to start from the token file"),
    }
    assert_eq!(m.get_token().unwrap().refresh_token.as_deref(), Some("P"));
    let t = m.refresh_token(&TokenEndpointReply::Granted(grant("B", Some(60), None)), 100).unwrap();
    assert_eq!(t.refresh_token.as_deref(), Some("P"));
}

#[test]
fn refresh_without_refresh_token_fails() {
    let mut m = manager(StalenessPolicy::DiscardStale);
    m.set_token(token("A", 3600, 1000, None));
    assert!(matches!(m.begin_refresh(None), Err(AuthError::NoRefreshToken)));
    assert!(matches!(m.begin_refresh(Some(token("B", 10, 0, None))), Err(AuthError::NoRefreshToken)));
}

#[test]
fn stale_token_with_refresh_token_asks_for_refresh() {
    let mut m = manager(StalenessPolicy::DiscardStale);
    m.set_token(token("A", 10, 0, Some("R")));
    let s = GmailServer::new(m);
    assert!(s.needs_refresh(&None, 100));
    assert!(!s.needs_refresh(&None, 5));
    let fresh = GmailServer::new(manager(StalenessPolicy::DiscardStale));
    assert!(!fresh.needs_refresh(&None, 100));
    assert!(fresh.needs_refresh(&Some(token("A", 10, 0, Some("R"))), 100));
}

#[test]
fn guard_refuses_without_any_token() {
    let mut s = GmailServer::new(manager(StalenessPolicy::DiscardStale));
    assert_eq!(s.user_id(), "me");
    assert!(!s.is_authenticated(10));
    assert_eq!(s.check_authentication(10), AuthStep::LoadFromStore);
    assert!(matches!(s.authenticated_client(None, 10), Err(AuthError::NotAuthenticated)));
    assert!(matches!(s.ensure_authenticated(None, 10), Err(AuthError::NotAuthenticated)));
    assert!(matches!(s.authenticated_client(None, 10), Err(AuthError::NotAuthenticated)));
}

#[test]
fn guard_admits_after_loading_from_store() {
    let mut s = GmailServer::new(manager(StalenessPolicy::DiscardStale));
    assert_eq!(s.authenticated_client(Some(token("A", 3600, 1000, None)), 2000).unwrap(), "Bearer A");
    assert_eq!(s.check_authentication(2000), AuthStep::Ready);
    assert_eq!(s.authenticated_client(None, 2000).unwrap(), "Bearer A");
}

#[test]
fn guard_admits_with_cached_token() {
    let mut m = manager(StalenessPolicy::DiscardStale);
    m.set_token(token("test_access_token", 3600, 0, None));
    let mut s = GmailServer::new(m);
    assert!(s.ensure_authenticated(None, 100).is_ok());
    assert_eq!(s.authenticated_client(None, 100).unwrap(), "Bearer test_access_token");
    assert!(matches!(s.authenticated_client(None, 3600), Err(AuthError::NotAuthenticated)));
}

#[test]
fn guard_under_keep_stale_policy() {
    let mut s = GmailServer::new(manager(StalenessPolicy::KeepStale));
    s.ensure_authenticated(Some(token("A", 10, 0, Some("R"))), 1000).unwrap();
    assert!(s.is_authenticated(1000));
    let mut d = GmailServer::new(manager(StalenessPolicy::DiscardStale));
    assert!(d.ensure_authenticated(Some(token("A", 10, 0, Some("R"))), 1000).is_err());
    assert!(d.oauth_manager.get_token().is_none());
}

#[test]
fn stale_token_on_two_consecutive_loads() {
    let saved = token("A", 3600, 1000, None);
    let now = 1000 + 3600 + 1;
    assert!(saved.is_expired(now));
    let first = filter_loaded(Some(saved.clone()), StalenessPolicy::DiscardStale, now);
    let second = filter_loaded(Some(saved.clone()), StalenessPolicy::DiscardStale, now);
    assert!(first.is_none());
    assert!(second.is_none());
    let first = filter_loaded(Some(saved.clone()), StalenessPolicy::KeepStale, now).unwrap();
    let second = filter_loaded(Some(saved.clone()), StalenessPolicy::KeepStale, now).unwrap();
    assert!(same(&first, &saved));
    assert!(same(&second, &saved));
}

#[test]
fn staleness_boundary() {
    let t = token("A", 3600, 1000, None);
    assert!(!t.is_expired(4599));
    assert!(t.is_expired(4600));
    assert!(filter_loaded(Some(t.clone()), StalenessPolicy::DiscardStale, 4599).is_some());
    assert!(filter_loaded(Some(t), StalenessPolicy::DiscardStale, 4600).is_none());
    assert!(filter_loaded(None, StalenessPolicy::KeepStale, 0).is_none());
}

#[test]
fn token_record_round_trip() {
    for t in [token("A", 3600, 1000, None), token("x\"y", 0, u64::MAX, Some("R"))] {
        let back = OAuthToken::from_json(&t.to_json()).unwrap();
        assert!(same(&back, &t));
    }
}

#[test]
fn token_record_defaults_and_rejections() {
    let obj = |fields: Vec<(&str, JsonValue)>| {
        JsonValue::Object(fields.into_iter().map(|(k, v)| (k.to_string(), v)).collect())
    };
    let t = OAuthToken::from_json(&obj(vec![
        ("access_token", JsonValue::Str("A".to_string())),
        ("created_at", JsonValue::Number(100)),
        ("expires_at", JsonValue::Number(160)),
    ]))
    .unwrap();
    assert_eq!(t.token_type, "Bearer");
    assert_eq!(t.expires_in, 60);
    assert_eq!(t.scope, "");
    assert!(t.refresh_token.is_none());
    let inconsistent = obj(vec![
        ("access_token", JsonValue::Str("A".to_string())),
        ("created_at", JsonValue::Number(100)),
        ("expires_in", JsonValue::Number(10)),
        ("expires_at", JsonValue::Number(160)),
    ]);
    assert!(matches!(OAuthToken::from_json(&inconsistent), Err(AuthError::Decode(_))));
    let no_access = obj(vec![("token_type", JsonValue::Str("Bearer".to_string()))]);
    assert!(OAuthToken::from_json(&no_access).is_err());
    let wrong_type = obj(vec![
        ("access_token", JsonValue::Str("A".to_string())),
        ("expires_in", JsonValue::Str("soon".to_string())),
    ]);
    assert!(OAuthToken::from_json(&wrong_type).is_err());
    assert!(OAuthToken::from_json(&JsonValue::Null).is_err());
}

#[test]
fn cached_token_is_never_half_written() {
    let mut s = GmailServer::new(manager(StalenessPolicy::DiscardStale));
    let exchanged = s
        .oauth_manager
        .exchange_code(&TokenEndpointReply::Granted(grant("A", Some(3600), None)), 10)
        .unwrap();
    assert!(s.oauth_manager.exchange_code(&TokenEndpointReply::Granted(grant("", Some(1), None)), 10).is_err());
    s.oauth_manager.set_token(exchanged);
    let seen = s.oauth_manager.get_token().unwrap();
    assert!(!seen.access_token.is_empty());
    assert_eq!(s.authenticated_client(None, 20).unwrap(), "Bearer A");
}

#[test]
fn error_messages_hold_no_token() {
    let e = AuthError::NotAuthenticated;
    assert!(e.message().contains("login"));
    let p = AuthError::Provider { status: 400, body: "bad".to_string() };
    assert!(p.message().contains("bad"));
}

fn test_manager() -> OAuthManager {
    let config = Config {
        gmail_client_id: Some("test_client_id".to_string()),
        gmail_client_secret: Some("test_client_secret".to_string()),
        app_data_dir: None,
    };
    OAuthManager::new(&config, &HttpConfig::default(), Some("/home/test"), StalenessPolicy::DiscardStale).unwrap()
}

#[test]
fn test_gmail_server_new() {
    let server = GmailServer::new(test_manager());
    assert_eq!(server.user_id(), "me");
    assert!(!server.is_authenticated(0));
}

#[test]
fn test_authenticated_client_not_authenticated() {
    let mut server = GmailServer::new(test_manager());
    let result = server.authenticated_client(None, 0);
    assert!(result.is_err());
}

#[test]
fn test_check_authentication_not_authenticated() {
    let mut server = GmailServer::new(test_manager());
    assert_eq!(server.check_authentication(0), AuthStep::LoadFromStore);
    let result = server.ensure_authenticated(None, 0);
    assert!(result.is_err());
}

#[test]
fn test_check_authentication_authenticated() {
    let mut oauth_manager = test_manager();
    let token = OAuthToken {
        access_token: "test_access_token".to_string(),
        token_type: "Bearer".to_string(),
        expires_in: 3600,
        refresh_token: None,
        scope: "test_scope".to_string(),
        created_at: 0,
    };
    oauth_manager.set_token(token);
    let mut server_with_token = GmailServer::new(oauth_manager);
    assert_eq!(server_with_token.check_authentication(0), AuthStep::Ready);
    let result = server_with_token.ensure_authenticated(None, 0);
    assert!(result.is_ok());
}
