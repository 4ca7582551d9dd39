use rfesi::errors::{AuthFlowReason, EsiError, TransportKind};
use rfesi::text::{chars_of, render_decimal};

#[test]
fn decimal_of_small_and_large_integers() {
    assert_eq!(render_decimal(0), "0");
    assert_eq!(render_decimal(7), "7");
    assert_eq!(render_decimal(10), "10");
    assert_eq!(render_decimal(42), "42");
    assert_eq!(render_decimal(1005), "1005");
    assert_eq!(render_decimal(90000007), "90000007");
    assert_eq!(render_decimal(u64::MAX), "18446744073709551615");
}

#[test]
fn decimal_agrees_with_the_standard_rendering() {
    let samples: [u64; 8] = [1, 9, 11, 99, 100, 12345, 1 << 32, u64::MAX - 1];
    for n in samples {
        assert_eq!(render_decimal(n), format!("{}", n));
    }
}

#[test]
fn chars_of_keeps_every_character_in_order() {
    assert_eq!(chars_of(""), Vec::<char>::new());
    assert_eq!(chars_of("a{b}"), vec!['a', '{', 'b', '}']);
    assert_eq!(chars_of("h\u{e9}!"), vec!['h', '\u{e9}', '!']);
}

#[test]
fn messages_of_each_kind_of_failure() {
    assert_eq!(
        EsiError::AuthFlowError { reason: AuthFlowReason::StateMismatch }.message(),
        "Authorization flow failed: state mismatch"
    );
    assert_eq!(
        EsiError::AuthFlowError { reason: AuthFlowReason::CodeRejected }.message(),
        "Authorization flow failed: authorization code rejected"
    );
    assert_eq!(
        EsiError::AuthFlowError { reason: AuthFlowReason::MissingRefreshToken }.message(),
        "Authorization flow failed: no refresh token"
    );
    assert_eq!(
        EsiError::AuthFlowError { reason: AuthFlowReason::RefreshRejected }.message(),
        "Authorization flow failed: refresh token rejected"
    );
    assert_eq!(
        EsiError::AuthFlowError { reason: AuthFlowReason::MalformedPayload }.message(),
        "Authorization flow failed: malformed token payload"
    );
    assert_eq!(EsiError::TokenExpiredError.message(), "Access token missing or expired");
    assert_eq!(
        EsiError::TransportError { kind: TransportKind::Timeout }.message(),
        "HTTP transport failure: timeout"
    );
    assert_eq!(
        EsiError::TransportError { kind: TransportKind::Connection }.message(),
        "HTTP transport failure: connection"
    );
    assert_eq!(
        EsiError::ApiError { status: 404, body: "{\"error\":\"not found\"}".to_owned() }.message(),
        "API returned status 404: {\"error\":\"not found\"}"
    );
    assert_eq!(
        EsiError::DeserializationError { raw_body: "<html>".to_owned() }.message(),
        "Could not decode response body: <html>"
    );
}

#[test]
fn transport_kind_follows_the_flags_in_order() {
    assert_eq!(TransportKind::from_flags(true, true, true), TransportKind::Timeout);
    assert_eq!(TransportKind::from_flags(true, false, false), TransportKind::Timeout);
    assert_eq!(TransportKind::from_flags(false, true, true), TransportKind::Connection);
    assert_eq!(TransportKind::from_flags(false, false, true), TransportKind::Setup);
    assert_eq!(TransportKind::from_flags(false, false, false), TransportKind::Other);
    assert_eq!(TransportKind::Setup.describe(), "setup");
    assert_eq!(TransportKind::Other.describe(), "other");
}
