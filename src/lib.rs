//! A small OAuth 2.0 client for the Strava API: settings are checked into a
//! configuration, a consent URL is assembled for first-time authorization, and
//! a refresh-token exchange is prepared and its response applied.

pub mod auth_url;
pub mod config;
pub mod decimal;
pub mod refresh;

pub use auth_url::build_auth_url;
pub use config::{load_config, ConfigError, Settings, StravaConfig};
pub use decimal::{parse_u32, to_decimal};
pub use refresh::{
    apply_refresh, refresh_form, refresh_outcome, request_from_parsed, token_request, token_url,
    RefreshError, RefreshResponse, TokenRequest,
};
