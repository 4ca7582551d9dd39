use rfesi::builders::EsiBuilder;
use rfesi::client::{transport_failure, Esi, TokenState};
use rfesi::dispatch::{
    complete_response, render_path, status_is_success, EndpointDescriptor, PathArg,
    PreparedRequest, RequestType, Verb,
};
use rfesi::errors::{EsiError, TransportKind};

fn client(tokens: TokenState) -> Esi {
    EsiBuilder::new()
        .client_id("a")
        .client_secret("b")
        .callback_url("c")
        .user_agent("d")
        .build()
        .unwrap()
        .with_tokens(tokens)
}

fn valid_until(expiration: u64) -> TokenState {
    TokenState {
        access_token: Some("secret".to_owned()),
        access_expiration: Some(expiration),
        refresh_token: Some("r".to_owned()),
    }
}

fn endpoint(verb: Verb, auth: RequestType) -> EndpointDescriptor {
    EndpointDescriptor { op_id: "op", verb, template: "/things/{thing_id}/", auth }
}

#[test]
fn placeholder_is_replaced_by_the_decimal_argument() {
    let args = vec![PathArg::integer("character_id", 42)];
    assert_eq!(render_path("{character_id}", &args), "42");
    assert_eq!(render_path("/characters/{character_id}/", &args), "/characters/42/");
}

#[test]
fn path_args_hold_name_and_value() {
    assert_eq!(
        PathArg::integer("n", 1234567890123),
        PathArg { name: "n".to_owned(), value: "1234567890123".to_owned() }
    );
    assert_eq!(
        PathArg::text("region", "the-forge"),
        PathArg { name: "region".to_owned(), value: "the-forge".to_owned() }
    );
}

#[test]
fn several_placeholders_are_replaced_from_the_left() {
    let args = vec![
        PathArg::integer("corporation_id", 7),
        PathArg::text("division", "wallet"),
        PathArg::integer("corporation_id", 8),
    ];
    assert_eq!(
        render_path("/corporations/{corporation_id}/{division}/{corporation_id}", &args),
        "/corporations/7/wallet/7"
    );
    assert_eq!(render_path("{division}{division}", &args), "walletwallet");
}

#[test]
fn text_without_placeholders_stands_for_itself() {
    let args = vec![PathArg::integer("id", 1)];
    assert_eq!(render_path("", &args), "");
    assert_eq!(render_path("/status/", &args), "/status/");
    assert_eq!(render_path("/a}b/", &args), "/a}b/");
    assert_eq!(render_path("/caf\u{e9}/", &Vec::new()), "/caf\u{e9}/");
}

#[test]
fn braces_that_name_no_argument_stand_for_themselves() {
    let args = vec![PathArg::integer("id", 5)];
    assert_eq!(render_path("/{other}/", &args), "/{other}/");
    assert_eq!(render_path("/{id", &args), "/{id");
    assert_eq!(render_path("{}", &args), "{}");
    assert_eq!(render_path("{{id}}", &args), "{5}");
    assert_eq!(render_path("{a{id}", &args), "{a5");
    assert_eq!(render_path("{id}{", &args), "5{");
}

#[test]
fn values_are_not_rendered_again() {
    let args = vec![PathArg::text("a", "{b}"), PathArg::text("b", "x")];
    assert_eq!(render_path("{a}/{b}", &args), "{b}/x");
    let empty = vec![PathArg::text("", "nothing")];
    assert_eq!(render_path("<{}>", &empty), "<nothing>");
}

#[test]
fn status_is_success_from_200_to_299() {
    assert!(!status_is_success(0));
    assert!(!status_is_success(199));
    assert!(status_is_success(200));
    assert!(status_is_success(204));
    assert!(status_is_success(299));
    assert!(!status_is_success(300));
    assert!(!status_is_success(404));
    assert!(!status_is_success(u16::MAX));
}

#[test]
fn authenticated_call_without_token_is_not_prepared() {
    let esi = client(TokenState::new());
    let call = endpoint(Verb::Get, RequestType::Authenticated);
    let args = vec![PathArg::integer("thing_id", 1)];
    assert_eq!(
        esi.prepare(&call, &args, Vec::new(), None, 0),
        Err(EsiError::TokenExpiredError)
    );
    let only_expiration = TokenState {
        access_token: None,
        access_expiration: Some(u64::MAX),
        refresh_token: None,
    };
    assert_eq!(
        client(only_expiration).prepare(&call, &args, Vec::new(), None, 0),
        Err(EsiError::TokenExpiredError)
    );
}

#[test]
fn authenticated_call_with_expired_token_is_not_prepared() {
    let esi = client(valid_until(1000));
    let call = endpoint(Verb::Get, RequestType::Authenticated);
    let args = vec![PathArg::integer("thing_id", 1)];
    assert_eq!(
        esi.prepare(&call, &args, Vec::new(), None, 1000),
        Err(EsiError::TokenExpiredError)
    );
    assert_eq!(
        esi.prepare(&call, &args, Vec::new(), None, 5000),
        Err(EsiError::TokenExpiredError)
    );
    assert!(esi.prepare(&call, &args, Vec::new(), None, 999).is_ok());
    let no_expiration = TokenState {
        access_token: Some("secret".to_owned()),
        access_expiration: None,
        refresh_token: None,
    };
    assert_eq!(
        client(no_expiration).prepare(&call, &args, Vec::new(), None, 0),
        Err(EsiError::TokenExpiredError)
    );
}

#[test]
fn authenticated_call_carries_the_bearer_token() {
    let esi = client(valid_until(1000));
    let args = vec![PathArg::integer("thing_id", 31)];
    let request = esi
        .prepare(&endpoint(Verb::Get, RequestType::Authenticated), &args, Vec::new(), None, 10)
        .unwrap();
    assert_eq!(
        request,
        PreparedRequest {
            verb: Verb::Get,
            path: "/latest/things/31/".to_owned(),
            query: Vec::new(),
            headers: vec![("Authorization".to_owned(), "Bearer secret".to_owned())],
            body: None,
        }
    );
    let post = esi
        .prepare(
            &endpoint(Verb::Post, RequestType::Authenticated),
            &args,
            Vec::new(),
            Some(vec![1, 2]),
            10,
        )
        .unwrap();
    assert_eq!(
        post.headers,
        vec![
            ("Authorization".to_owned(), "Bearer secret".to_owned()),
            ("Content-Type".to_owned(), "application/json".to_owned()),
        ]
    );
    assert_eq!(post.body, Some(vec![1, 2]));
}

#[test]
fn public_call_never_carries_authorization() {
    let args = vec![PathArg::integer("thing_id", 1)];
    for tokens in [TokenState::new(), valid_until(1000), valid_until(0)] {
        let esi = client(tokens);
        for verb in [Verb::Get, Verb::Post] {
            let request = esi
                .prepare(&endpoint(verb, RequestType::Public), &args, Vec::new(), None, 10)
                .unwrap();
            assert!(request.headers.iter().all(|(name, _)| name != "Authorization"));
            assert!(request
                .headers
                .iter()
                .all(|(_, value)| !value.contains("secret")));
        }
    }
}

#[test]
fn query_is_passed_on_and_a_body_goes_with_post_only() {
    let esi = client(TokenState::new());
    let args = vec![PathArg::integer("thing_id", 9)];
    let query = vec![("page".to_owned(), "2".to_owned()), ("q".to_owned(), "a b".to_owned())];
    let get = esi
        .prepare(
            &endpoint(Verb::Get, RequestType::Public),
            &args,
            query.clone(),
            Some(vec![5]),
            0,
        )
        .unwrap();
    assert_eq!(get.query, query);
    assert_eq!(get.body, None);
    assert_eq!(get.headers, Vec::new());
    let post = esi
        .prepare(&endpoint(Verb::Post, RequestType::Public), &args, query.clone(), Some(vec![5]), 0)
        .unwrap();
    assert_eq!(post.body, Some(vec![5]));
    assert_eq!(post.query, query);
    assert_eq!(
        post.headers,
        vec![("Content-Type".to_owned(), "application/json".to_owned())]
    );
    let bare = esi
        .prepare(&endpoint(Verb::Post, RequestType::Public), &args, Vec::new(), None, 0)
        .unwrap();
    assert_eq!(bare.body, None);
    assert_eq!(bare.headers, Vec::new());
}

#[test]
fn path_starts_with_the_configured_version() {
    let esi = EsiBuilder::new()
        .client_id("a")
        .client_secret("b")
        .callback_url("c")
        .user_agent("d")
        .version("v2")
        .build()
        .unwrap();
    let args = vec![PathArg::integer("thing_id", 3)];
    let request = esi
        .prepare(&endpoint(Verb::Get, RequestType::Public), &args, Vec::new(), None, 0)
        .unwrap();
    assert_eq!(request.path, "/v2/things/3/");
}

#[test]
fn failing_status_becomes_an_api_error() {
    let body = "{\"error\":\"not found\"}".to_owned();
    let result: Result<u64, EsiError> = complete_response(404, body, Some(1));
    match result {
        Err(EsiError::ApiError { status, body }) => {
            assert_eq!(status, 404);
            assert!(body.contains("not found"));
            assert_eq!(body, "{\"error\":\"not found\"}");
        }
        other => panic!("unexpected result: {:?}", other),
    }
    let empty: Result<u64, EsiError> = complete_response(500, String::new(), None);
    assert_eq!(empty, Err(EsiError::ApiError { status: 500, body: String::new() }));
}

#[test]
fn unreadable_body_becomes_a_deserialization_error() {
    let result: Result<Vec<u64>, EsiError> = complete_response(200, "<html>".to_owned(), None);
    assert_eq!(result, Err(EsiError::DeserializationError { raw_body: "<html>".to_owned() }));
}

#[test]
fn readable_body_becomes_the_value() {
    let result: Result<Vec<u64>, EsiError> =
        complete_response(200, "[1,2]".to_owned(), Some(vec![1, 2]));
    assert_eq!(result, Ok(vec![1, 2]));
    let created: Result<&str, EsiError> = complete_response(201, String::new(), Some("x"));
    assert_eq!(created, Ok("x"));
}

#[test]
fn error_of_the_http_client_becomes_a_transport_failure() {
    let esi = client(TokenState::new());
    let error = esi.client.get("not an address").build().unwrap_err();
    assert_eq!(
        transport_failure(&error),
        EsiError::TransportError { kind: TransportKind::Setup }
    );
}
