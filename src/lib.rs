//! Core of a Gmail MCP server: the OAuth2 token lifecycle, the authentication
//! guard in front of every Gmail call, and the parsing that the Gmail tools need.
pub mod text;
pub mod encoding;
pub mod config;
pub mod error;
pub mod json;
pub mod token;
pub mod csrf;
pub mod oauth;
pub mod gmail;
pub mod email;
pub mod extract;
pub mod pages;
pub mod metrics;
pub mod parts;
pub mod tools;
