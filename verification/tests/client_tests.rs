use harvest_client::client::{
    harvest_path_and_query, send_failure, HttpMethod, OcClient, RequestParts, SecretString,
    Timestamp, HARVEST_TIMEOUT_SECS,
};
use harvest_client::error::ClientError;

fn test_client() -> OcClient {
    OcClient::new(
        "https".to_string(),
        "example.org".to_string(),
        "sync".to_string(),
        &SecretString::new("secret".to_string()),
    )
}

const HARVEST_URI: &str = "https://example.org/tobira/harvest?since=0&preferredAmount=2";

fn harvest_parts() -> RequestParts {
    test_client()
        .harvest_request(Timestamp { millis: 0 }, 2)
        .expect("building the harvest request must succeed")
}

#[test]
fn query_string_exact() {
    assert_eq!(
        harvest_path_and_query(Timestamp { millis: 0 }, 2),
        "/tobira/harvest?since=0&preferredAmount=2"
    );
    assert_eq!(
        harvest_path_and_query(Timestamp { millis: -5 }, 100),
        "/tobira/harvest?since=-5&preferredAmount=100"
    );
    assert_eq!(
        harvest_path_and_query(Timestamp { millis: 1700000000123 }, 500),
        "/tobira/harvest?since=1700000000123&preferredAmount=500"
    );
}

#[test]
fn harvest_request_shape() {
    let parts = harvest_parts();
    assert_eq!(parts.method, HttpMethod::Get);
    assert_eq!(parts.uri, HARVEST_URI);
    assert_eq!(parts.headers.len(), 1);
    assert_eq!(parts.headers[0].0, "Authorization");
    assert_eq!(parts.headers[0].1, "Basic c3luYzpzZWNyZXQ=");
    assert!(parts.body.is_none());
}

#[test]
fn version_request_shape() {
    let parts = test_client().version_request().unwrap();
    assert_eq!(parts.method, HttpMethod::Get);
    assert_eq!(parts.uri, "https://example.org/tobira/version");
    assert_eq!(parts.headers[0].1, "Basic c3luYzpzZWNyZXQ=");
}

#[test]
fn test_harvest_request_asks_for_two_from_epoch() {
    let parts = test_client().test_harvest_request().unwrap();
    assert_eq!(parts.uri, HARVEST_URI);
}

#[test]
fn stats_request_shape() {
    let parts = test_client().stats_request("{\"count\":3}".to_string()).unwrap();
    assert_eq!(parts.method, HttpMethod::Post);
    assert_eq!(parts.uri, "https://example.org/tobira/stats");
    assert_eq!(parts.headers.len(), 2);
    assert_eq!(parts.headers[0].0, "Authorization");
    assert_eq!(parts.headers[1].0, "Content-Type");
    assert_eq!(parts.headers[1].1, "application/json");
    assert_eq!(parts.body.as_deref(), Some("{\"count\":3}"));
}

#[test]
fn two_item_batch_succeeds() {
    let client = test_client();
    let parts = harvest_parts();
    let body = b"{\"items\":[{\"id\":\"a\"},{\"id\":\"b\"}]}".to_vec();
    let body_len = body.len();
    let (response, n) = client
        .validate_harvest_response(200, body, &parts.uri)
        .expect("a valid two-item body must validate");
    assert_eq!(response.items.len(), 2);
    assert_eq!(n, body_len);
    assert!(response.made_progress());
    let first = response.items[0].get("id").and_then(|v| v.as_str());
    let second = response.items[1].get("id").and_then(|v| v.as_str());
    assert_eq!(first, Some("a"));
    assert_eq!(second, Some("b"));
}

#[test]
fn empty_batch_is_success() {
    let client = test_client();
    let parts = harvest_parts();
    let (response, _) = client
        .validate_harvest_response(200, b"{\"items\":[]}".to_vec(), &parts.uri)
        .expect("an empty-items body must validate");
    assert_eq!(response.items.len(), 0);
    assert!(!response.made_progress());
}

#[test]
fn authentication_error_names_user_not_secret() {
    let client = test_client();
    let parts = harvest_parts();
    let err = client
        .validate_harvest_response(401, b"{\"items\":[]}".to_vec(), &parts.uri)
        .unwrap_err();
    match &err {
        ClientError::Authentication { uri, username } => {
            assert_eq!(username, "sync");
            assert_eq!(uri, HARVEST_URI);
        }
        other => panic!("expected an authentication error, got {:?}", other),
    }
    let message = err.message();
    assert!(message.contains("sync"));
    assert!(!message.contains("secret"));
}

#[test]
fn unauthorized_wins_over_body() {
    let client = test_client();
    let parts = harvest_parts();
    for body in [b"definitely not json".to_vec(), b"{\"items\":[]}".to_vec()] {
        let err = client.validate_harvest_response(401, body, &parts.uri).unwrap_err();
        assert!(matches!(err, ClientError::Authentication { .. }));
    }
}

#[test]
fn malformed_body_is_deserialization_error() {
    let client = test_client();
    let parts = harvest_parts();
    let err = client
        .validate_harvest_response(200, b"not json{{".to_vec(), &parts.uri)
        .unwrap_err();
    assert!(err.message().contains(HARVEST_URI));
    match err {
        ClientError::Deserialization { uri, excerpt } => {
            assert_eq!(uri, HARVEST_URI);
            assert_eq!(excerpt, "not json{{");
        }
        other => panic!("expected a deserialization error, got {:?}", other),
    }
}

#[test]
fn valid_json_without_items_is_deserialization_error() {
    let client = test_client();
    let parts = harvest_parts();
    for body in [
        b"{\"things\":[]}".to_vec(),
        b"{\"items\":17}".to_vec(),
        b"[1,2,3]".to_vec(),
    ] {
        let err = client.validate_harvest_response(200, body, &parts.uri).unwrap_err();
        assert!(matches!(err, ClientError::Deserialization { .. }));
    }
}

#[test]
fn unexpected_status_carries_context() {
    let client = test_client();
    let parts = harvest_parts();
    let err = client
        .validate_harvest_response(503, b"".to_vec(), &parts.uri)
        .unwrap_err();
    match &err {
        ClientError::UnexpectedStatus { status, uri, username } => {
            assert_eq!(*status, 503);
            assert_eq!(uri, HARVEST_URI);
            assert_eq!(username, "sync");
        }
        other => panic!("expected an unexpected-status error, got {:?}", other),
    }
    assert!(err.message().contains("503"));
}

#[test]
fn version_body_passes_through() {
    let client = test_client();
    let uri = "https://example.org/tobira/version".to_string();
    let body = b"{\"version\":\"1.2\"}".to_vec();
    let (response, n) = client.validate_version_response(200, body, &uri).unwrap();
    assert_eq!(n, 17);
    assert_eq!(
        response.metadata.get("version").and_then(|v| v.as_str()),
        Some("1.2")
    );
    let err = client
        .validate_version_response(200, b"<html>".to_vec(), &uri)
        .unwrap_err();
    assert!(matches!(err, ClientError::Deserialization { .. }));
}

#[test]
fn excerpt_truncates_long_bodies() {
    let client = test_client();
    let parts = harvest_parts();
    let mut body = Vec::new();
    while body.len() < 300 {
        body.push(b'x');
    }
    let err = client.validate_harvest_response(200, body, &parts.uri).unwrap_err();
    match err {
        ClientError::Deserialization { excerpt, .. } => assert_eq!(excerpt.len(), 256),
        other => panic!("expected a deserialization error, got {:?}", other),
    }
}

#[test]
fn excerpt_survives_invalid_utf8() {
    let client = test_client();
    let parts = harvest_parts();
    let err = client
        .validate_harvest_response(200, vec![0xff, 0xfe], &parts.uri)
        .unwrap_err();
    match err {
        ClientError::Deserialization { excerpt, .. } => {
            assert!(excerpt.contains('\u{FFFD}'));
        }
        other => panic!("expected a deserialization error, got {:?}", other),
    }
}

#[test]
fn timeout_distinct_from_transport() {
    assert_eq!(HARVEST_TIMEOUT_SECS, 60);
    let timeout = send_failure(true, HARVEST_URI.to_string());
    let transport = send_failure(false, HARVEST_URI.to_string());
    assert!(matches!(timeout, ClientError::Timeout { .. }));
    assert!(matches!(transport, ClientError::Transport { .. }));
    assert!(timeout.message().contains("timed out"));
    assert!(!transport.message().contains("timed out"));
}

#[test]
fn invalid_target_fails_loudly() {
    let client = OcClient::new(
        "https".to_string(),
        "exa mple.org".to_string(),
        "sync".to_string(),
        &SecretString::new("secret".to_string()),
    );
    let err = client.harvest_request(Timestamp { millis: 0 }, 2).unwrap_err();
    match err {
        ClientError::InvalidUri { uri } => assert!(uri.contains("exa mple.org")),
        other => panic!("expected an invalid-URI error, got {:?}", other),
    }
}

#[test]
fn shared_instance_requests_do_not_interfere() {
    let client = test_client();
    let shared = &client;
    let version = shared.version_request().unwrap();
    let harvest = shared.harvest_request(Timestamp { millis: 42 }, 7).unwrap();
    let version_again = shared.version_request().unwrap();
    assert_eq!(version.uri, "https://example.org/tobira/version");
    assert_eq!(version_again.uri, version.uri);
    assert_eq!(
        harvest.uri,
        "https://example.org/tobira/harvest?since=42&preferredAmount=7"
    );
    assert_eq!(version.headers, harvest.headers);
}
