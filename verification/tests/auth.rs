use rfesi::auth::{AuthorizationRequest, Grant, TokenRequest, TokenResponse, STATE_LENGTH};
use rfesi::builders::EsiBuilder;
use rfesi::client::{Esi, TokenState};
use rfesi::errors::{AuthFlowReason, EsiError};

fn client() -> Esi {
    EsiBuilder::new()
        .client_id("my-id")
        .client_secret("my-secret")
        .callback_url("https://app.example/callback")
        .user_agent("tests")
        .build()
        .unwrap()
}

fn payload(access: &str, expires_in: u64, refresh: Option<&str>) -> TokenResponse {
    TokenResponse {
        access_token: access.to_owned(),
        expires_in,
        refresh_token: refresh.map(|r| r.to_owned()),
        token_type: "Bearer".to_owned(),
    }
}

fn failure(reason: AuthFlowReason) -> EsiError {
    EsiError::AuthFlowError { reason }
}

#[test]
fn authorization_request_embeds_every_part() {
    let request = client().authorization_request(
        "login.example",
        "publicData esi-characters.read_blueprints.v1",
        "S123".to_owned(),
    );
    assert_eq!(
        request,
        AuthorizationRequest {
            state: "S123".to_owned(),
            url: "https://login.example/oauth/authorize?response_type=code&client_id=my-id\
                  &redirect_uri=https://app.example/callback\
                  &scope=publicData esi-characters.read_blueprints.v1&state=S123"
                .to_owned(),
        }
    );
}

#[test]
fn begin_authorization_draws_a_state_of_letters_and_digits() {
    let esi = client();
    let request = esi.begin_authorization("login.example", "publicData");
    assert_eq!(request.state.chars().count(), STATE_LENGTH);
    assert_eq!(STATE_LENGTH, 32);
    assert!(request.state.chars().all(|c| c.is_ascii_alphanumeric()));
    assert_eq!(
        request.url,
        format!(
            "https://login.example/oauth/authorize?response_type=code&client_id=my-id\
             &redirect_uri=https://app.example/callback&scope=publicData&state={}",
            request.state
        )
    );
    assert_eq!(
        request,
        esi.authorization_request("login.example", "publicData", request.state.clone())
    );
}

#[test]
fn callback_with_another_state_is_refused() {
    let esi = client();
    let request = esi.begin_authorization("login.example", "publicData");
    let forged = format!("{}x", request.state);
    assert_eq!(
        esi.complete_authorization("login.example", "code", &forged, &request.state),
        Err(failure(AuthFlowReason::StateMismatch))
    );
    assert_eq!(
        esi.complete_authorization("login.example", "code", "", &request.state),
        Err(failure(AuthFlowReason::StateMismatch))
    );
    assert_eq!(
        esi.complete_authorization("login.example", "code", "abc", "abd"),
        Err(failure(AuthFlowReason::StateMismatch))
    );
}

#[test]
fn callback_with_the_issued_state_gives_the_exchange() {
    let esi = client();
    let request = esi.begin_authorization("login.example", "publicData");
    let exchange = esi
        .complete_authorization("login.example", "the-code", &request.state, &request.state)
        .unwrap();
    assert_eq!(
        exchange,
        TokenRequest {
            url: "https://login.example/oauth/token".to_owned(),
            client_id: "my-id".to_owned(),
            client_secret: "my-secret".to_owned(),
            grant: Grant::AuthorizationCode { code: "the-code".to_owned() },
        }
    );
    assert_eq!(
        exchange.form_fields(),
        vec![
            ("grant_type".to_owned(), "authorization_code".to_owned()),
            ("code".to_owned(), "the-code".to_owned()),
        ]
    );
}

#[test]
fn grant_gives_tokens_that_expire_after_the_lifetime() {
    let now = 1_700_000_000;
    let tokens = TokenState::from_grant(200, Some(payload("t", 1200, Some("r"))), now).unwrap();
    assert_eq!(
        tokens,
        TokenState {
            access_token: Some("t".to_owned()),
            access_expiration: Some(1_700_001_200),
            refresh_token: Some("r".to_owned()),
        }
    );
    assert!(tokens.is_valid(now));
    assert!(tokens.is_valid(now + 1199));
    assert!(!tokens.is_valid(now + 1200));
}

#[test]
fn grant_fails_when_the_provider_rejects_the_code() {
    for status in [199, 300, 400, 401, 500] {
        assert_eq!(
            TokenState::from_grant(status, Some(payload("t", 1200, Some("r"))), 5),
            Err(failure(AuthFlowReason::CodeRejected))
        );
    }
    assert_eq!(
        TokenState::from_grant(400, None, 5),
        Err(failure(AuthFlowReason::CodeRejected))
    );
}

#[test]
fn grant_fails_on_a_malformed_payload() {
    assert_eq!(
        TokenState::from_grant(200, None, 5),
        Err(failure(AuthFlowReason::MalformedPayload))
    );
    assert_eq!(
        TokenState::from_grant(200, Some(payload("t", 1200, None)), 5),
        Err(failure(AuthFlowReason::MalformedPayload))
    );
    assert_eq!(
        TokenState::from_grant(200, Some(payload("t", 2, Some("r"))), u64::MAX - 1),
        Err(failure(AuthFlowReason::MalformedPayload))
    );
    assert_eq!(
        TokenState::from_grant(299, Some(payload("t", 1, Some("r"))), u64::MAX - 1)
            .unwrap()
            .access_expiration,
        Some(u64::MAX)
    );
}

#[test]
fn refresh_needs_a_refresh_token() {
    let esi = client();
    assert_eq!(
        esi.refresh("login.example"),
        Err(failure(AuthFlowReason::MissingRefreshToken))
    );
    let esi = esi.with_tokens(TokenState {
        access_token: Some("old".to_owned()),
        access_expiration: Some(10),
        refresh_token: Some("keep".to_owned()),
    });
    let request = esi.refresh("login.example").unwrap();
    assert_eq!(
        request,
        TokenRequest {
            url: "https://login.example/oauth/token".to_owned(),
            client_id: "my-id".to_owned(),
            client_secret: "my-secret".to_owned(),
            grant: Grant::RefreshToken { refresh_token: "keep".to_owned() },
        }
    );
    assert_eq!(
        request.form_fields(),
        vec![
            ("grant_type".to_owned(), "refresh_token".to_owned()),
            ("refresh_token".to_owned(), "keep".to_owned()),
        ]
    );
}

#[test]
fn refreshed_tokens_keep_the_refresh_token_unless_a_new_one_came() {
    let prior = TokenState {
        access_token: Some("old".to_owned()),
        access_expiration: Some(10),
        refresh_token: Some("keep".to_owned()),
    };
    assert_eq!(
        prior.refreshed(200, Some(payload("new", 100, None)), 50),
        Ok(TokenState {
            access_token: Some("new".to_owned()),
            access_expiration: Some(150),
            refresh_token: Some("keep".to_owned()),
        })
    );
    assert_eq!(
        prior.refreshed(200, Some(payload("new", 100, Some("rotated"))), 50),
        Ok(TokenState {
            access_token: Some("new".to_owned()),
            access_expiration: Some(150),
            refresh_token: Some("rotated".to_owned()),
        })
    );
    // The tokens that were held are left as they were.
    assert_eq!(prior.access_token, Some("old".to_owned()));
}

#[test]
fn refresh_fails_when_rejected_or_malformed() {
    let prior = TokenState {
        access_token: Some("old".to_owned()),
        access_expiration: Some(10),
        refresh_token: Some("keep".to_owned()),
    };
    assert_eq!(
        prior.refreshed(400, Some(payload("new", 100, None)), 50),
        Err(failure(AuthFlowReason::RefreshRejected))
    );
    assert_eq!(
        prior.refreshed(204, None, 50),
        Err(failure(AuthFlowReason::MalformedPayload))
    );
    assert_eq!(
        prior.refreshed(200, Some(payload("new", u64::MAX, None)), 1),
        Err(failure(AuthFlowReason::MalformedPayload))
    );
}

#[test]
fn tokens_without_expiration_are_never_valid() {
    let mut tokens = TokenState::new();
    assert_eq!(tokens.access_token, None);
    assert!(!tokens.is_valid(0));
    tokens.access_token = Some("t".to_owned());
    assert!(!tokens.is_valid(0));
    tokens.access_expiration = Some(1);
    assert!(tokens.is_valid(0));
    assert!(!tokens.is_valid(1));
    tokens.access_token = None;
    assert!(!tokens.is_valid(0));
}

fn json_payload(access: &str, expires_in: u64, refresh: Option<&str>) -> String {
    let mut object = serde_json::Map::new();
    object.insert("access_token".to_owned(), serde_json::Value::from(access));
    object.insert("expires_in".to_owned(), serde_json::Value::from(expires_in));
    if let Some(r) = refresh {
        object.insert("refresh_token".to_owned(), serde_json::Value::from(r));
    }
    object.insert("token_type".to_owned(), serde_json::Value::from("Bearer"));
    serde_json::to_string(&serde_json::Value::Object(object)).unwrap()
}

fn read_payload(text: &str) -> Option<TokenResponse> {
    let value: serde_json::Value = serde_json::from_str(text).ok()?;
    Some(TokenResponse {
        access_token: value.get("access_token")?.as_str()?.to_owned(),
        expires_in: value.get("expires_in")?.as_u64()?,
        refresh_token: match value.get("refresh_token") {
            Some(r) => Some(r.as_str()?.to_owned()),
            None => None,
        },
        token_type: value.get("token_type")?.as_str()?.to_owned(),
    })
}

#[test]
fn payload_survives_a_round_trip_through_json() {
    let now = 1_700_000_000;
    for (access, expires_in, refresh) in
        [("t", 1200, Some("r")), ("a \"quoted\" token", 0, Some("")), ("\u{e9}", 86400, Some("r2"))]
    {
        let sent = payload(access, expires_in, refresh);
        let text = json_payload(access, expires_in, refresh);
        let read = read_payload(&text).unwrap();
        assert_eq!(read, sent);
        assert_eq!(
            TokenState::from_grant(200, Some(read), now),
            TokenState::from_grant(200, Some(sent), now)
        );
    }
    assert_eq!(read_payload("{\"access_token\": 5}"), None);
    assert_eq!(
        TokenState::from_grant(200, read_payload("not json"), now),
        Err(failure(AuthFlowReason::MalformedPayload))
    );
}

#[test]
fn mocked_token_endpoint_gives_the_expected_tokens() {
    let now = 1_000;
    let body = "{\"access_token\":\"t\",\"expires_in\":1200,\"refresh_token\":\"r\",\"token_type\":\"Bearer\"}";
    let tokens = TokenState::from_grant(200, read_payload(body), now).unwrap();
    assert_eq!(tokens.access_token, Some("t".to_owned()));
    assert_eq!(tokens.refresh_token, Some("r".to_owned()));
    assert_eq!(tokens.access_expiration, Some(2_200));
}
