use gmail_mcp_server::metrics::OAuthMetrics;
use gmail_mcp_server::token::OAuthToken;
use std::time::{SystemTime, UNIX_EPOCH};

fn now_secs() -> u64 {
    SystemTime::now().duration_since(UNIX_EPOCH).unwrap().as_secs()
}

fn token(access: &str, created_at: u64) -> OAuthToken {
    OAuthToken {
        access_token: access.to_string(),
        token_type: "Bearer".to_string(),
        expires_in: 3600,
        refresh_token: Some("test_refresh_token".to_string()),
        scope: "test_scope".to_string(),
        created_at,
    }
}

#[test]
fn test_initial_metrics_state() {
    let metrics = OAuthMetrics::new();
    assert_eq!(metrics.token_last_refreshed_timestamp(), 0);
    assert_eq!(metrics.token_expiration_timestamp(), 0);
    assert_eq!(metrics.token_exists(), 0);
}

#[test]
fn test_update_token_metrics_with_valid_token() {
    let mut metrics = OAuthMetrics::new();
    let now = now_secs();
    let token = token("test_access_token", now);
    metrics.update_token_metrics(Some(&token));
    assert_eq!(metrics.token_last_refreshed_timestamp(), now);
    assert_eq!(metrics.token_expiration_timestamp(), now + 3600);
    assert_eq!(metrics.token_exists(), 1);
}

#[test]
fn test_update_token_metrics_with_none() {
    let mut metrics = OAuthMetrics::new();
    let now = now_secs();
    let token = token("test_access_token", now);
    metrics.update_token_metrics(Some(&token));
    assert_eq!(metrics.token_exists(), 1);
    metrics.update_token_metrics(None);
    assert_eq!(metrics.token_last_refreshed_timestamp(), now);
    assert_eq!(metrics.token_expiration_timestamp(), now + 3600);
    assert_eq!(metrics.token_exists(), 0);
}

#[test]
fn test_update_token_metrics_with_expired_token() {
    let mut metrics = OAuthMetrics::new();
    let past_time = now_secs() - 4000;
    let token = token("test_access_token", past_time);
    metrics.update_token_metrics(Some(&token));
    assert_eq!(metrics.token_last_refreshed_timestamp(), past_time);
    assert_eq!(metrics.token_expiration_timestamp(), past_time + 3600);
    assert_eq!(metrics.token_exists(), 1);
}

#[test]
fn test_update_token_metrics_updates_timestamp() {
    let mut metrics = OAuthMetrics::new();
    let now = now_secs();
    let token1 = token("test_access_token1", now);
    metrics.update_token_metrics(Some(&token1));
    assert_eq!(metrics.token_last_refreshed_timestamp(), now);
    assert_eq!(metrics.token_expiration_timestamp(), now + 3600);
    assert_eq!(metrics.token_exists(), 1);
    let new_time = now + 1000;
    let token2 = token("test_access_token2", new_time);
    metrics.update_token_metrics(Some(&token2));
    assert_eq!(metrics.token_last_refreshed_timestamp(), new_time);
    assert_eq!(metrics.token_expiration_timestamp(), new_time + 3600);
    assert_eq!(metrics.token_exists(), 1);
}
