//! The configuration of one provider account, and how it is read from the
//! four named settings.
use vstd::prelude::*;

use crate::decimal::{parse_u32, parsed_u32};

verus! {

/// Credential and session state for one provider account.
#[derive(Debug)]
pub struct StravaConfig {
    pub client_id: u32,
    pub client_secret: String,
    /// Absent until the account has been authorized.
    pub refresh_token: Option<String>,
    pub redirect_uri: String,
    /// Only ever set from the answer to a successful refresh.
    pub access_token: Option<String>,
    /// Root of the provider API; fixed in production, replaced in tests.
    pub strava_url: String,
}

/// The text held by an optional string.
pub open spec fn opt_view(o: Option<String>) -> Option<Seq<char>> {
    match o {
        Some(s) => Some(s@),
        None => None,
    }
}

fn same_opt(a: &Option<String>, b: &Option<String>) -> (r: bool)
    ensures
        r == (opt_view(*a) == opt_view(*b)),
{
    match (a, b) {
        (Some(x), Some(y)) => *x == *y,
        (None, None) => true,
        _ => false,
    }
}

impl StravaConfig {
    /// Two configurations agree when every field holds the same value.
    pub open spec fn same_as(&self, o: &StravaConfig) -> bool {
        &&& self.client_id == o.client_id
        &&& self.client_secret@ == o.client_secret@
        &&& opt_view(self.refresh_token) == opt_view(o.refresh_token)
        &&& self.redirect_uri@ == o.redirect_uri@
        &&& opt_view(self.access_token) == opt_view(o.access_token)
        &&& self.strava_url@ == o.strava_url@
    }
}

impl PartialEq for StravaConfig {
    fn eq(&self, o: &StravaConfig) -> (r: bool) {
        self.client_id == o.client_id && self.client_secret == o.client_secret && same_opt(
            &self.refresh_token,
            &o.refresh_token,
        ) && self.redirect_uri == o.redirect_uri && same_opt(&self.access_token, &o.access_token)
            && self.strava_url == o.strava_url
    }
}

impl vstd::std_specs::cmp::PartialEqSpecImpl for StravaConfig {
    open spec fn obeys_eq_spec() -> bool {
        true
    }

    open spec fn eq_spec(&self, o: &StravaConfig) -> bool {
        self.same_as(o)
    }
}

/// The four named settings as they were found: `None` where one is not set.
pub struct Settings {
    pub client_id: Option<String>,
    pub client_secret: Option<String>,
    pub refresh_token: Option<String>,
    pub redirect_uri: Option<String>,
}

/// Why the settings do not make a configuration.
#[derive(Debug, Clone, Copy, PartialEq, Eq, Structural)]
pub enum ConfigError {
    ClientIdMissing,
    InvalidClientId,
    ClientSecretMissing,
}

impl ConfigError {
    /// The operator-facing text of the failure, which names the setting.
    pub fn message(&self) -> (r: &'static str)
        ensures
            r@ == match self {
                ConfigError::ClientIdMissing => "STRAVA_CLIENT_ID not set"@,
                ConfigError::InvalidClientId => "Invalid STRAVA_CLIENT_ID"@,
                ConfigError::ClientSecretMissing => "STRAVA_CLIENT_SECRET not set"@,
            },
    {
        match self {
            ConfigError::ClientIdMissing => "STRAVA_CLIENT_ID not set",
            ConfigError::InvalidClientId => "Invalid STRAVA_CLIENT_ID",
            ConfigError::ClientSecretMissing => "STRAVA_CLIENT_SECRET not set",
        }
    }
}

/// A secret counts as given when it is set and not empty.
pub open spec fn secret_given(secret: Option<String>) -> bool {
    secret is Some && secret->0@.len() > 0
}

/// Whether `r` is the configuration made from `s`: each field as it was given,
/// the identifier read as a number, the redirect address defaulted, no access
/// token yet, and the production API root.
pub open spec fn config_from_settings(s: Settings, r: StravaConfig) -> bool {
    &&& s.client_id is Some
    &&& parsed_u32(s.client_id->0@) == Some(r.client_id)
    &&& s.client_secret == Some(r.client_secret)
    &&& r.refresh_token == s.refresh_token
    &&& r.redirect_uri@ == match s.redirect_uri {
        Some(u) => u@,
        None => "http://localhost/"@,
    }
    &&& r.access_token is None
    &&& r.strava_url@ == "https://www.strava.com"@
}

/// Checks the settings and builds the configuration from them. The identifier
/// is checked first, then the secret, which must not be empty; a missing
/// refresh token is no error.
pub fn load_config(settings: Settings) -> (r: Result<StravaConfig, ConfigError>)
    ensures
        settings.client_id is None ==> r == Err::<StravaConfig, ConfigError>(
            ConfigError::ClientIdMissing,
        ),
        settings.client_id is Some && parsed_u32(settings.client_id->0@) is None ==> r == Err::<
            StravaConfig,
            ConfigError,
        >(ConfigError::InvalidClientId),
        settings.client_id is Some && parsed_u32(settings.client_id->0@) is Some
            && !secret_given(settings.client_secret) ==> r == Err::<StravaConfig, ConfigError>(
            ConfigError::ClientSecretMissing,
        ),
        r is Ok <==> settings.client_id is Some && parsed_u32(settings.client_id->0@) is Some
            && secret_given(settings.client_secret),
        r is Ok ==> config_from_settings(settings, r->Ok_0),
{
    let Settings { client_id, client_secret, refresh_token, redirect_uri } = settings;
    let client_id = match client_id {
        Some(text) => match parse_u32(text.as_str()) {
            Some(n) => n,
            None => return Err(ConfigError::InvalidClientId),
        },
        None => return Err(ConfigError::ClientIdMissing),
    };
    let client_secret = match client_secret {
        Some(secret) => {
            if secret.as_str().unicode_len() == 0 {
                return Err(ConfigError::ClientSecretMissing);
            }
            secret
        },
        None => return Err(ConfigError::ClientSecretMissing),
    };
    let redirect_uri = match redirect_uri {
        Some(uri) => uri,
        None => String::from_str("http://localhost/"),
    };
    Ok(
        StravaConfig {
            client_id,
            client_secret,
            refresh_token,
            redirect_uri,
            access_token: None,
            strava_url: String::from_str("https://www.strava.com"),
        },
    )
}

} // verus!
