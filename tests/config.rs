use gmail_mcp_server::config::{get_app_file_path, AuthConfig, Config, HttpConfig};

#[test]
fn test_oauth_redirect_url_uses_configured_value() {
    let http_config = HttpConfig {
        oauth_redirect_url: Some("https://example.com/callback".to_string()),
        ..Default::default()
    };
    assert_eq!(http_config.oauth_redirect_url(), "https://example.com/callback");
}

#[test]
fn test_oauth_redirect_url_falls_back_to_default() {
    let http_config = HttpConfig { port: 3000, ..Default::default() };
    assert_eq!(http_config.oauth_redirect_url(), "http://localhost:3000/auth/callback");
}

#[test]
fn test_oauth_redirect_url_default_with_different_port() {
    let http_config = HttpConfig { port: 9000, ..Default::default() };
    assert_eq!(http_config.oauth_redirect_url(), "http://localhost:9000/auth/callback");
}

#[test]
fn oauth_redirect_url_with_single_digit_and_largest_port() {
    let http_config = HttpConfig { port: 7, ..Default::default() };
    assert_eq!(http_config.oauth_redirect_url(), "http://localhost:7/auth/callback");
    let http_config = HttpConfig { port: 65535, ..Default::default() };
    assert_eq!(http_config.oauth_redirect_url(), "http://localhost:65535/auth/callback");
}

#[test]
fn test_metrics_route_uses_configured_value() {
    let http_config = HttpConfig { metrics_route: "/custom-metrics".to_string(), ..Default::default() };
    assert_eq!(http_config.metrics_route(), "/custom-metrics");
}

#[test]
fn test_metrics_route_falls_back_to_default() {
    let http_config = HttpConfig::default();
    assert_eq!(http_config.metrics_route(), "/metrics");
}

#[test]
fn test_login_route_uses_configured_value() {
    let http_config = HttpConfig {
        auth_config: AuthConfig { login_route: "/custom-login".to_string(), ..Default::default() },
        ..Default::default()
    };
    assert_eq!(http_config.login_route(), "/custom-login");
}

#[test]
fn test_login_route_falls_back_to_default() {
    let http_config = HttpConfig::default();
    assert_eq!(http_config.login_route(), "/auth/login");
}

#[test]
fn test_refresh_route_uses_configured_value() {
    let http_config = HttpConfig {
        auth_config: AuthConfig { refresh_route: "/custom-refresh".to_string(), ..Default::default() },
        ..Default::default()
    };
    assert_eq!(http_config.refresh_route(), "/custom-refresh");
}

#[test]
fn test_refresh_route_falls_back_to_default() {
    let http_config = HttpConfig::default();
    assert_eq!(http_config.refresh_route(), "/auth/refresh");
}

#[test]
fn test_callback_route_uses_configured_value() {
    let http_config = HttpConfig {
        auth_config: AuthConfig { callback_route: "/custom-callback".to_string(), ..Default::default() },
        ..Default::default()
    };
    assert_eq!(http_config.callback_route(), "/custom-callback");
}

#[test]
fn test_callback_route_falls_back_to_default() {
    let http_config = HttpConfig::default();
    assert_eq!(http_config.callback_route(), "/auth/callback");
}

#[test]
fn test_app_data_dir_uses_configured_value() {
    let custom_dir = "/custom/path".to_string();
    let config = Config { app_data_dir: Some(custom_dir.clone()), ..Default::default() };
    assert_eq!(config.app_data_dir(Some("/home/someone")), custom_dir);
}

#[test]
fn test_app_data_dir_falls_back_to_default() {
    let config = Config::default();
    let dir = config.app_data_dir(Some("/home/someone"));
    assert!(dir.contains("gmail-mcp-server-data"));
    assert_eq!(dir, "/home/someone/.gmail-mcp-server-data");
    assert_eq!(config.app_data_dir(None), "./gmail-mcp-server-data");
    assert_eq!(config.app_data_dir(Some("/home/someone/")), "/home/someone/.gmail-mcp-server-data");
}

#[test]
fn test_get_app_file_path() {
    let custom_path = "/tmp/work/test_app_data".to_string();
    let config = Config { app_data_dir: Some(custom_path.clone()), ..Default::default() };
    let result = get_app_file_path(&config, None, "test_file.json");
    let expected_path = format!("{}/test_file.json", custom_path);
    assert_eq!(result, expected_path);
}

#[test]
fn test_http_stream_route_uses_configured_value() {
    let http_config = HttpConfig { http_stream_route: "/custom-stream".to_string(), ..Default::default() };
    assert_eq!(http_config.http_stream_route(), "/custom-stream");
}

#[test]
fn test_http_stream_route_falls_back_to_default() {
    let http_config = HttpConfig::default();
    assert_eq!(http_config.http_stream_route(), "/stream");
}

#[test]
fn test_tools_route_uses_configured_value() {
    let http_config = HttpConfig { tools_route: "/custom-tools".to_string(), ..Default::default() };
    assert_eq!(http_config.tools_route(), "/custom-tools");
}

#[test]
fn test_tools_route_falls_back_to_default() {
    let http_config = HttpConfig::default();
    assert_eq!(http_config.tools_route(), "/tools");
}

#[test]
fn test_sse_route_uses_configured_value() {
    let http_config = HttpConfig::default();
    assert_eq!(http_config.sse_route(), "/sse");
}

#[test]
fn test_sse_route_falls_back_to_default() {
    let http_config = HttpConfig::default();
    assert_eq!(http_config.sse_route(), "/sse");
}

#[test]
fn test_sse_post_route_uses_configured_value() {
    let http_config = HttpConfig::default();
    assert_eq!(http_config.sse_post_route(), "/message");
}

#[test]
fn test_sse_post_route_falls_back_to_default() {
    let http_config = HttpConfig::default();
    assert_eq!(http_config.sse_post_route(), "/message");
}

#[test]
fn test_app_state_uses_config_for_routes() {
    let http_config = HttpConfig {
        metrics_route: "/custom-metrics".to_string(),
        http_stream_route: "/custom-stream".to_string(),
        sse_config: gmail_mcp_server::config::SseConfig { sse_prefix: "/custom-sse".to_string() },
        auth_config: AuthConfig {
            login_route: "/custom-login".to_string(),
            callback_route: "/custom-callback".to_string(),
            ..Default::default()
        },
        health_route: "/custom-health".to_string(),
        root_route: "/custom-root".to_string(),
        tools_route: "/custom-tools".to_string(),
        ..Default::default()
    };
    assert_eq!(http_config.root_route(), "/custom-root");
    assert_eq!(http_config.login_route(), "/custom-login");
    assert_eq!(http_config.callback_route(), "/custom-callback");
    assert_eq!(http_config.health_route(), "/custom-health");
    assert_eq!(http_config.metrics_route(), "/custom-metrics");
    assert_eq!(http_config.http_stream_route(), "/custom-stream");
    assert_eq!(http_config.sse_route(), "/sse");
    assert_eq!(http_config.sse_post_route(), "/message");
    assert_eq!(http_config.tools_route(), "/custom-tools");
    assert_eq!(http_config.sse_prefix(), "/custom-sse");
}
