//! Server configuration: route paths, the OAuth redirect URL and the
//! application data directory.
use vstd::prelude::*;
use vstd::string::*;
use crate::text::{decimal, join_path, path_join, push_decimal};

verus! {

/// Routes of the authorization endpoints.
#[derive(Debug, Clone)]
pub struct AuthConfig {
    pub login_route: String,
    pub refresh_route: String,
    pub callback_route: String,
}

impl Default for AuthConfig {
    fn default() -> (r: Self)
        ensures
            r.login_route@ == "/auth/login"@,
            r.refresh_route@ == "/auth/refresh"@,
            r.callback_route@ == "/auth/callback"@,
    {
        AuthConfig {
            login_route: "/auth/login".to_string(),
            refresh_route: "/auth/refresh".to_string(),
            callback_route: "/auth/callback".to_string(),
        }
    }
}

/// Where the SSE transport is mounted.
#[derive(Debug, Clone)]
pub struct SseConfig {
    pub sse_prefix: String,
}

impl Default for SseConfig {
    fn default() -> (r: Self)
        ensures
            r.sse_prefix@ == "/sse"@,
    {
        SseConfig { sse_prefix: "/sse".to_string() }
    }
}

impl SseConfig {
    /// The SSE route inside the SSE prefix; it is fixed.
    pub fn sse_route(&self) -> (r: &'static str)
        ensures
            r@ == "/sse"@,
    {
        "/sse"
    }

    /// The route that SSE clients post their messages to; it is fixed.
    pub fn sse_post_route(&self) -> (r: &'static str)
        ensures
            r@ == "/message"@,
    {
        "/message"
    }

    pub fn sse_prefix(&self) -> (r: &str)
        ensures
            r@ == self.sse_prefix@,
    {
        self.sse_prefix.as_str()
    }
}

/// Settings of the HTTP server mode.
#[derive(Debug, Clone)]
pub struct HttpConfig {
    pub port: u16,
    /// The redirect URL registered with the provider; when absent it is
    /// derived from the port and the callback route.
    pub oauth_redirect_url: Option<String>,
    pub metrics_route: String,
    pub http_stream_route: String,
    pub tools_route: String,
    pub sse_config: SseConfig,
    pub auth_config: AuthConfig,
    pub health_route: String,
    pub root_route: String,
}

impl Default for HttpConfig {
    fn default() -> (r: Self)
        ensures
            r.port == 8080,
            r.oauth_redirect_url is None,
            r.metrics_route@ == "/metrics"@,
            r.http_stream_route@ == "/stream"@,
            r.tools_route@ == "/tools"@,
            r.sse_config.sse_prefix@ == "/sse"@,
            r.auth_config.login_route@ == "/auth/login"@,
            r.auth_config.refresh_route@ == "/auth/refresh"@,
            r.auth_config.callback_route@ == "/auth/callback"@,
            r.health_route@ == "/health"@,
            r.root_route@ == "/"@,
    {
        HttpConfig {
            port: 8080,
            oauth_redirect_url: None,
            metrics_route: "/metrics".to_string(),
            http_stream_route: "/stream".to_string(),
            tools_route: "/tools".to_string(),
            sse_config: SseConfig::default(),
            auth_config: AuthConfig::default(),
            health_route: "/health".to_string(),
            root_route: "/".to_string(),
        }
    }
}

/// The redirect URL used when none is configured.
pub open spec fn default_redirect_url(port: u16, callback_route: Seq<char>) -> Seq<char> {
    "http://localhost:"@ + decimal(port as nat) + callback_route
}

impl HttpConfig {
    pub open spec fn redirect_url_spec(&self) -> Seq<char> {
        match self.oauth_redirect_url {
            Some(u) => u@,
            None => default_redirect_url(self.port, self.auth_config.callback_route@),
        }
    }

    pub fn oauth_redirect_url(&self) -> (r: String)
        ensures
            r@ == self.redirect_url_spec(),
    {
        match &self.oauth_redirect_url {
            Some(u) => u.clone(),
            None => {
                let mut out = "http://localhost:".to_string();
                push_decimal(&mut out, self.port as u64);
                out.append(self.auth_config.callback_route.as_str());
                out
            },
        }
    }

    pub fn metrics_route(&self) -> (r: &str)
        ensures
            r@ == self.metrics_route@,
    {
        self.metrics_route.as_str()
    }

    pub fn http_stream_route(&self) -> (r: &str)
        ensures
            r@ == self.http_stream_route@,
    {
        self.http_stream_route.as_str()
    }

    pub fn tools_route(&self) -> (r: &str)
        ensures
            r@ == self.tools_route@,
    {
        self.tools_route.as_str()
    }

    pub fn sse_route(&self) -> (r: &'static str)
        ensures
            r@ == "/sse"@,
    {
        self.sse_config.sse_route()
    }

    pub fn sse_post_route(&self) -> (r: &'static str)
        ensures
            r@ == "/message"@,
    {
        self.sse_config.sse_post_route()
    }

    pub fn sse_prefix(&self) -> (r: &str)
        ensures
            r@ == self.sse_config.sse_prefix@,
    {
        self.sse_config.sse_prefix()
    }

    pub fn login_route(&self) -> (r: &str)
        ensures
            r@ == self.auth_config.login_route@,
    {
        self.auth_config.login_route.as_str()
    }

    pub fn refresh_route(&self) -> (r: &str)
        ensures
            r@ == self.auth_config.refresh_route@,
    {
        self.auth_config.refresh_route.as_str()
    }

    pub fn callback_route(&self) -> (r: &str)
        ensures
            r@ == self.auth_config.callback_route@,
    {
        self.auth_config.callback_route.as_str()
    }

    pub fn health_route(&self) -> (r: &str)
        ensures
            r@ == self.health_route@,
    {
        self.health_route.as_str()
    }

    pub fn root_route(&self) -> (r: &str)
        ensures
            r@ == self.root_route@,
    {
        self.root_route.as_str()
    }
}

/// Credentials and storage location shared by every mode.
#[derive(Debug, Clone)]
pub struct Config {
    pub gmail_client_id: Option<String>,
    pub gmail_client_secret: Option<String>,
    pub app_data_dir: Option<String>,
}

impl Default for Config {
    fn default() -> (r: Self)
        ensures
            r.gmail_client_id is None,
            r.gmail_client_secret is None,
            r.app_data_dir is None,
    {
        Config { gmail_client_id: None, gmail_client_secret: None, app_data_dir: None }
    }
}

/// The data directory: the configured one, else a hidden directory in the
/// home directory, else one in the working directory.
pub open spec fn app_data_dir_spec(configured: Option<Seq<char>>, home: Option<Seq<char>>) -> Seq<char> {
    match configured {
        Some(d) => d,
        None => match home {
            Some(h) => path_join(h, ".gmail-mcp-server-data"@),
            None => path_join("."@, "gmail-mcp-server-data"@),
        },
    }
}

impl Config {
    pub open spec fn configured_dir(&self) -> Option<Seq<char>> {
        match self.app_data_dir {
            Some(d) => Some(d@),
            None => None,
        }
    }

    /// The application data directory; `home` is the user's home directory
    /// when it is known.
    pub fn app_data_dir(&self, home: Option<&str>) -> (r: String)
        ensures
            r@ == app_data_dir_spec(self.configured_dir(), match home {
                Some(h) => Some(h@),
                None => None,
            }),
    {
        match &self.app_data_dir {
            Some(d) => d.clone(),
            None => match home {
                Some(h) => join_path(h, ".gmail-mcp-server-data"),
                None => join_path(".", "gmail-mcp-server-data"),
            },
        }
    }
}

/// The path of a file inside the application data directory.
pub fn get_app_file_path(config: &Config, home: Option<&str>, filename: &str) -> (r: String)
    ensures
        r@ == path_join(app_data_dir_spec(config.configured_dir(), match home {
            Some(h) => Some(h@),
            None => None,
        }), filename@),
{
    let dir = config.app_data_dir(home);
    join_path(dir.as_str(), filename)
}

/// A Gmail operation run once from the command line.
#[derive(Debug, Clone)]
pub enum ToolsCmd {
    SearchThreads { query: String, max_results: i64 },
    CreateDraft { to: String, subject: String, body: String, thread_id: Option<String> },
    ExtractAttachment { message_id: String, filename: String },
    FetchEmailBodies { thread_ids: Vec<String> },
    DownloadAttachment { message_id: String, filename: String, download_dir: Option<String> },
    ForwardEmail { message_id: String, to: String, subject: String, body: String },
    SendDraft { draft_id: String },
}

/// The two ways the program runs.
#[derive(Debug, Clone)]
pub enum Commands {
    Http(HttpConfig),
    Tools { tool: ToolsCmd },
}

/// The parsed command line.
#[derive(Debug, Clone)]
pub struct Cli {
    pub command: Commands,
    pub config: Config,
}

} // verus!
