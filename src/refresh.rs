//! The refresh-token exchange: the request that is sent to the token endpoint,
//! and what the provider's answer does to the configuration.
use vstd::prelude::*;

use crate::config::{opt_view, StravaConfig};
use crate::decimal::{decimal_digits, to_decimal};

verus! {

#[verifier::external_type_specification]
#[verifier::external_body]
pub struct ExUrl(url::Url);

#[verifier::external_type_specification]
#[verifier::external_body]
pub struct ExUrlParseError(url::ParseError);

/// Whether `s` parses as an absolute URL.
pub uninterp spec fn url_accepts(s: Seq<char>) -> bool;

/// Relies on url::Url::parse: whether it succeeds depends on the text alone.
#[verifier::external_body]
fn parse_url(s: &str) -> (r: Result<url::Url, url::ParseError>)
    ensures
        r is Ok == url_accepts(s@),
{
    url::Url::parse(s)
}

/// The provider's answer to a successful refresh.
pub struct RefreshResponse {
    pub refresh_token: String,
    pub access_token: String,
    pub token_type: String,
    /// Seconds from issuance until the access token expires.
    pub expires_in: u32,
}

/// Why a refresh did not give a new configuration.
#[derive(Debug, Clone, Copy, PartialEq, Eq, Structural)]
pub enum RefreshError {
    /// The API root does not make a valid token endpoint URL.
    MalformedBaseUrl,
    /// The provider answered with a status other than 200.
    UnexpectedStatus(u16),
    /// The body of a 200 answer is not a refresh response.
    MalformedResponse,
}

/// A POST to the token endpoint with a form-encoded body.
pub struct TokenRequest {
    pub url: url::Url,
    /// The form fields, name then value, in the order they are sent.
    pub form: Vec<(String, String)>,
}

/// The text of each name and value of a form.
pub open spec fn form_view(form: Seq<(String, String)>) -> Seq<(Seq<char>, Seq<char>)> {
    form.map_values(|p: (String, String)| (p.0@, p.1@))
}

/// The four fields of a refresh request.
pub open spec fn token_form(client_id: u32, secret: Seq<char>, refresh_token: Seq<char>) -> Seq<
    (Seq<char>, Seq<char>),
> {
    seq![
        ("client_id"@, decimal_digits(client_id as nat)),
        ("client_secret"@, secret),
        ("refresh_token"@, refresh_token),
        ("grant_type"@, "refresh_token"@),
    ]
}

/// The address of the token endpoint under the API root `base`.
pub open spec fn token_endpoint(base: Seq<char>) -> Seq<char> {
    base + "/oauth/token"@
}

/// The text of the token endpoint's address for `config`.
pub fn token_url(config: &StravaConfig) -> (r: String)
    ensures
        r@ == token_endpoint(config.strava_url@),
{
    config.strava_url.clone().concat("/oauth/token")
}

/// The form of a refresh request for `config`, which must hold a refresh token.
pub fn refresh_form(config: &StravaConfig) -> (r: Vec<(String, String)>)
    requires
        config.refresh_token is Some,
    ensures
        form_view(r@) == token_form(
            config.client_id,
            config.client_secret@,
            config.refresh_token->0@,
        ),
{
    let refresh_token = match &config.refresh_token {
        Some(t) => t.clone(),
        None => String::new(),
    };
    let mut form: Vec<(String, String)> = Vec::new();
    form.push((String::from_str("client_id"), to_decimal(config.client_id)));
    form.push((String::from_str("client_secret"), config.client_secret.clone()));
    form.push((String::from_str("refresh_token"), refresh_token));
    form.push((String::from_str("grant_type"), String::from_str("refresh_token")));
    assert(form_view(form@) =~= token_form(
        config.client_id,
        config.client_secret@,
        config.refresh_token->0@,
    ));
    form
}

/// The refresh request for `config`, given what parsing its token endpoint
/// address gave.
pub fn request_from_parsed(config: &StravaConfig, parsed: Result<url::Url, url::ParseError>) -> (r:
    Result<TokenRequest, RefreshError>)
    requires
        config.refresh_token is Some,
    ensures
        parsed is Err ==> r == Err::<TokenRequest, RefreshError>(RefreshError::MalformedBaseUrl),
        parsed is Ok ==> r is Ok && r->Ok_0.url == parsed->Ok_0 && form_view(r->Ok_0.form@)
            == token_form(config.client_id, config.client_secret@, config.refresh_token->0@),
{
    match parsed {
        Ok(url) => Ok(TokenRequest { url, form: refresh_form(config) }),
        Err(_) => Err(RefreshError::MalformedBaseUrl),
    }
}

/// The refresh request for `config`, which must hold a refresh token: a POST
/// to `{strava_url}/oauth/token` with the identifier, the secret, the current
/// refresh token and the grant type. Fails when that address is not a URL.
pub fn token_request(config: &StravaConfig) -> (r: Result<TokenRequest, RefreshError>)
    requires
        config.refresh_token is Some,
    ensures
        r is Ok <==> url_accepts(token_endpoint(config.strava_url@)),
        r is Err ==> r == Err::<TokenRequest, RefreshError>(RefreshError::MalformedBaseUrl),
        r is Ok ==> form_view(r->Ok_0.form@) == token_form(
            config.client_id,
            config.client_secret@,
            config.refresh_token->0@,
        ),
{
    let address = token_url(config);
    let parsed = parse_url(address.as_str());
    request_from_parsed(config, parsed)
}

/// Whether `r` is `c` after the refresh answered by `resp`: both tokens taken
/// from the answer, every other field unchanged.
pub open spec fn refreshed(c: StravaConfig, resp: RefreshResponse, r: StravaConfig) -> bool {
    &&& r.client_id == c.client_id
    &&& r.client_secret@ == c.client_secret@
    &&& opt_view(r.refresh_token) == Some(resp.refresh_token@)
    &&& r.redirect_uri@ == c.redirect_uri@
    &&& opt_view(r.access_token) == Some(resp.access_token@)
    &&& r.strava_url@ == c.strava_url@
}

/// The configuration after a successful refresh: the answer's refresh token
/// replaces the old one and its access token is set.
pub fn apply_refresh(config: &StravaConfig, response: RefreshResponse) -> (r: StravaConfig)
    ensures
        refreshed(*config, response, r),
{
    StravaConfig {
        client_id: config.client_id,
        client_secret: config.client_secret.clone(),
        refresh_token: Some(response.refresh_token),
        redirect_uri: config.redirect_uri.clone(),
        access_token: Some(response.access_token),
        strava_url: config.strava_url.clone(),
    }
}

/// What the provider's answer makes of `config`: `status` is the HTTP status,
/// `response` the body read as a refresh response, `None` where it is not one.
pub fn refresh_outcome(config: &StravaConfig, status: u16, response: Option<RefreshResponse>) -> (r:
    Result<StravaConfig, RefreshError>)
    ensures
        status != 200 ==> r == Err::<StravaConfig, RefreshError>(
            RefreshError::UnexpectedStatus(status),
        ),
        status == 200 && response is None ==> r == Err::<StravaConfig, RefreshError>(
            RefreshError::MalformedResponse,
        ),
        status == 200 && response is Some ==> r is Ok && refreshed(
            *config,
            response->0,
            r->Ok_0,
        ),
{
    if status != 200 {
        return Err(RefreshError::UnexpectedStatus(status));
    }
    match response {
        Some(resp) => Ok(apply_refresh(config, resp)),
        None => Err(RefreshError::MalformedResponse),
    }
}

} // verus!
