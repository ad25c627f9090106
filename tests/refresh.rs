use strava_oauth::{
    apply_refresh, refresh_form, refresh_outcome, token_request, token_url, RefreshError,
    RefreshResponse, StravaConfig,
};

fn config_at(strava_url: String) -> StravaConfig {
    StravaConfig {
        client_id: 123456,
        client_secret: "dummy_secret".to_string(),
        refresh_token: Some("dummy_token".to_string()),
        redirect_uri: "http://localhost/".to_string(),
        access_token: None,
        strava_url,
    }
}

fn decode(body: &str) -> Option<RefreshResponse> {
    let value: serde_json::Value = serde_json::from_str(body).ok()?;
    Some(RefreshResponse {
        refresh_token: value.get("refresh_token")?.as_str()?.to_string(),
        access_token: value.get("access_token")?.as_str()?.to_string(),
        token_type: value.get("token_type")?.as_str()?.to_string(),
        expires_in: u32::try_from(value.get("expires_in")?.as_u64()?).ok()?,
    })
}

/// The body and content type that the refresh request for `config` is sent with.
fn wire_form(config: &StravaConfig) -> (String, String) {
    let request = token_request(config).unwrap();
    let built = reqwest::blocking::Client::new()
        .post(request.url)
        .form(&request.form)
        .build()
        .unwrap();
    let content_type = built.headers()["content-type"].to_str().unwrap().to_string();
    let body = String::from_utf8(built.body().unwrap().as_bytes().unwrap().to_vec()).unwrap();
    (content_type, body)
}

fn response(refresh_token: &str, access_token: &str) -> RefreshResponse {
    RefreshResponse {
        refresh_token: refresh_token.to_string(),
        access_token: access_token.to_string(),
        token_type: "Bearer".to_string(),
        expires_in: 21600,
    }
}

#[test]
fn test_refresh_strava_token() {
    let client_id: u32 = 123456;
    let client_secret = "dummy_secret".to_string();
    let refresh_token = "dummy_token".to_string();
    let redirect_uri = "http://localhost/".to_string();
    let server_url = "http://127.0.0.1:1234".to_string();

    let config = StravaConfig {
        client_id: client_id,
        client_secret: client_secret.clone(),
        refresh_token: Some(refresh_token.clone()),
        redirect_uri: redirect_uri.clone(),
        access_token: None,
        strava_url: server_url.clone(),
    };

    let expected = StravaConfig {
        client_id: client_id,
        client_secret: client_secret.clone(),
        refresh_token: Some(refresh_token.clone()),
        redirect_uri: redirect_uri.clone(),
        access_token: Some("dummy_access_token".to_string()),
        strava_url: server_url.clone(),
    };

    let request = token_request(&config).unwrap();
    assert_eq!(request.url.as_str(), "http://127.0.0.1:1234/oauth/token");
    let (content_type, body) = wire_form(&config);
    assert_eq!(content_type, "application/x-www-form-urlencoded");
    let fields: Vec<(String, String)> = url::form_urlencoded::parse(body.as_bytes())
        .map(|(k, v)| (k.into_owned(), v.into_owned()))
        .collect();
    for (name, value) in [
        ("client_id", "123456"),
        ("client_secret", "dummy_secret"),
        ("refresh_token", "dummy_token"),
        ("grant_type", "refresh_token"),
    ] {
        assert!(fields.contains(&(name.to_string(), value.to_string())), "{name}");
    }

    let answer = decode(r#"{"refresh_token":"dummy_token","access_token":"dummy_access_token","token_type":"Bearer","expires_in":21600}"#);
    assert_eq!(refresh_outcome(&config, 200, answer).unwrap(), expected);
}

#[test]
fn form_body_holds_exactly_the_four_fields() {
    let config = config_at("http://127.0.0.1:1234".to_string());
    let (_, body) = wire_form(&config);
    assert_eq!(
        body,
        "client_id=123456&client_secret=dummy_secret&refresh_token=dummy_token&grant_type=refresh_token"
    );
}

#[test]
fn form_values_are_url_encoded_on_the_wire() {
    let mut config = config_at("http://127.0.0.1:1234".to_string());
    config.client_secret = "a b&c=d".to_string();
    let (_, body) = wire_form(&config);
    assert_eq!(
        body,
        "client_id=123456&client_secret=a+b%26c%3Dd&refresh_token=dummy_token&grant_type=refresh_token"
    );
}

#[test]
fn non_200_answer_is_an_error() {
    let config = config_at("http://127.0.0.1:1234".to_string());
    let answer = decode(r#"{"message":"Authorization Error"}"#);
    assert_eq!(refresh_outcome(&config, 401, answer).unwrap_err(), RefreshError::UnexpectedStatus(401));
}

#[test]
fn malformed_json_answer_is_an_error() {
    let config = config_at("http://127.0.0.1:1234".to_string());
    for body in [
        r#"{"refresh_token":"dummy_token","access_token":"x"}"#,
        r#"{"refresh_token":1,"access_token":"x","token_type":"Bearer","expires_in":1}"#,
        "not json",
        "",
    ] {
        let answer = decode(body);
        assert_eq!(refresh_outcome(&config, 200, answer).unwrap_err(), RefreshError::MalformedResponse);
    }
}

#[test]
fn token_url_appends_the_endpoint() {
    let config = config_at("https://www.strava.com".to_string());
    assert_eq!(token_url(&config), "https://www.strava.com/oauth/token");
    let request = token_request(&config).unwrap();
    assert_eq!(request.url.as_str(), "https://www.strava.com/oauth/token");
}

#[test]
fn malformed_base_url_is_an_error() {
    let config = config_at("not a url".to_string());
    assert_eq!(token_request(&config).err(), Some(RefreshError::MalformedBaseUrl));
}

#[test]
fn refresh_form_fields() {
    let config = config_at("https://www.strava.com".to_string());
    let form = refresh_form(&config);
    let expected: Vec<(String, String)> = vec![
        ("client_id".to_string(), "123456".to_string()),
        ("client_secret".to_string(), "dummy_secret".to_string()),
        ("refresh_token".to_string(), "dummy_token".to_string()),
        ("grant_type".to_string(), "refresh_token".to_string()),
    ];
    assert_eq!(form, expected);
}

#[test]
fn outcome_for_each_status() {
    let config = config_at("https://www.strava.com".to_string());
    for status in [100u16, 201, 204, 301, 400, 401, 403, 429, 500, 503] {
        assert_eq!(
            refresh_outcome(&config, status, Some(response("a", "b"))).unwrap_err(),
            RefreshError::UnexpectedStatus(status)
        );
    }
    assert_eq!(refresh_outcome(&config, 200, None).unwrap_err(), RefreshError::MalformedResponse);
    let done = refresh_outcome(&config, 200, Some(response("rotated", "live"))).unwrap();
    assert_eq!(done.refresh_token, Some("rotated".to_string()));
    assert_eq!(done.access_token, Some("live".to_string()));
}

#[test]
fn apply_refresh_rotates_tokens_and_keeps_the_rest() {
    let mut config = config_at("https://example.test".to_string());
    config.access_token = Some("stale".to_string());
    let done = apply_refresh(&config, response("rotated", "live"));
    let expected = StravaConfig {
        client_id: 123456,
        client_secret: "dummy_secret".to_string(),
        refresh_token: Some("rotated".to_string()),
        redirect_uri: "http://localhost/".to_string(),
        access_token: Some("live".to_string()),
        strava_url: "https://example.test".to_string(),
    };
    assert_eq!(done, expected);
}
