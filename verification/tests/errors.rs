use space_cli::error::{classify, Category, Failure, ReportableError};
use space_cli::session::{default_spaced_rpc_url, ClientSession};

fn session() -> ClientSession {
    ClientSession::configure(
        "default".to_string(),
        "mainnet".to_string(),
        None,
        7225,
        None,
        false,
        false,
    )
}

const CONTEXT: &str = ": Rpc url: http://127.0.0.1:7225 (network: mainnet)";

#[test]
fn default_endpoint_is_local() {
    assert_eq!(default_spaced_rpc_url(7225), "http://127.0.0.1:7225");
    assert_eq!(default_spaced_rpc_url(0), "http://127.0.0.1:0");
    assert_eq!(default_spaced_rpc_url(80), "http://127.0.0.1:80");
    assert_eq!(default_spaced_rpc_url(u16::MAX), "http://127.0.0.1:65535");
}

#[test]
fn session_without_override_uses_the_default_endpoint() {
    let s = session();
    assert_eq!(
        s,
        ClientSession {
            wallet: "default".to_string(),
            network: "mainnet".to_string(),
            endpoint: "http://127.0.0.1:7225".to_string(),
            dust_threshold: None,
            force: false,
            skip_validation: false,
        }
    );
}

#[test]
fn session_keeps_an_endpoint_override() {
    let s = ClientSession::configure(
        "savings".to_string(),
        "regtest".to_string(),
        Some("http://node.example:9000".to_string()),
        7218,
        Some(1200),
        true,
        true,
    );
    assert_eq!(s.endpoint, "http://node.example:9000");
    assert_eq!(s.wallet, "savings");
    assert_eq!(s.network, "regtest");
    assert_eq!(s.dust_threshold, Some(1200));
    assert!(s.force);
    assert!(s.skip_validation);
}

#[test]
fn rejection_keeps_code_and_message() {
    let error = classify(
        &session(),
        Failure::Call { code: 64, message: "insufficient funds".to_string() },
    );
    assert_eq!(error.category, Category::RemoteRejected(64, "insufficient funds".to_string()));
    assert_eq!(error.detail, "insufficient funds");
}

#[test]
fn rejection_is_shown_as_a_document() {
    let error = classify(
        &session(),
        Failure::Call { code: 64, message: "insufficient funds".to_string() },
    );
    assert_eq!(error.render(), "{\n  \"code\": 64,\n  \"message\": \"insufficient funds\"\n}");
}

#[test]
fn rejection_document_escapes_the_message() {
    let error = classify(
        &session(),
        Failure::Call { code: -32000, message: "bad \"name\"\nline\\two".to_string() },
    );
    assert_eq!(
        error.render(),
        "{\n  \"code\": -32000,\n  \"message\": \"bad \\\"name\\\"\\nline\\\\two\"\n}"
    );
}

#[test]
fn rejection_document_is_read_back_by_a_json_reader() {
    let error = classify(
        &session(),
        Failure::Call { code: i32::MIN, message: "tab\there \u{1} é".to_string() },
    );
    let value: serde_json::Value = serde_json::from_str(&error.render()).unwrap();
    assert_eq!(value["code"].as_i64(), Some(i32::MIN as i64));
    assert_eq!(value["message"].as_str(), Some("tab\there \u{1} é"));
    assert_eq!(value.as_object().unwrap().len(), 2);
}

#[test]
fn unreachable_endpoint_is_a_transport_error() {
    let error = classify(&session(), Failure::Transport { cause: "connection refused".to_string() });
    assert_eq!(error.category, Category::Transport);
    assert_eq!(
        error.detail,
        "Transport error: connection refused: Rpc url: http://127.0.0.1:7225 (network: mainnet)"
    );
    assert!(error.detail.contains("http://127.0.0.1:7225"));
    assert!(error.detail.contains("mainnet"));
    assert_eq!(error.render(), error.detail);
}

#[test]
fn transport_error_names_an_overridden_endpoint() {
    let s = ClientSession::configure(
        "default".to_string(),
        "testnet4".to_string(),
        Some("https://rpc.example".to_string()),
        7224,
        None,
        false,
        false,
    );
    let error = classify(&s, Failure::Transport { cause: "dns error".to_string() });
    assert_eq!(
        error.detail,
        "Transport error: dns error: Rpc url: https://rpc.example (network: testnet4)"
    );
}

#[test]
fn closed_connection_is_a_transport_error() {
    let error = classify(&session(), Failure::RestartNeeded { cause: "task closed".to_string() });
    assert_eq!(error.category, Category::Transport);
    assert_eq!(error.detail, format!("Restart needed: task closed{}", CONTEXT));
}

#[test]
fn call_that_http_lacks_is_a_transport_error() {
    let error = classify(&session(), Failure::HttpNotImplemented);
    assert_eq!(error.category, Category::Transport);
    assert_eq!(error.detail, format!("HTTP not implemented{}", CONTEXT));
}

#[test]
fn timeout_has_its_own_category() {
    let error = classify(&session(), Failure::RequestTimeout);
    assert_eq!(error.category, Category::RequestTimeout);
    assert_eq!(error.detail, format!("Request timeout{}", CONTEXT));
}

#[test]
fn malformed_body_is_a_decoding_error() {
    let error = classify(&session(), Failure::Parse { cause: "expected value at line 1".to_string() });
    assert_eq!(error.category, Category::ProtocolDecode);
    assert_eq!(error.detail, "Parse error: expected value at line 1");
}

#[test]
fn stray_request_id_is_a_decoding_error() {
    let error = classify(&session(), Failure::InvalidRequestId { cause: "not pending".to_string() });
    assert_eq!(error.category, Category::ProtocolDecode);
    assert_eq!(error.detail, "Invalid request ID: not pending");
}

#[test]
fn bad_subscription_id_has_its_own_category() {
    let error = classify(&session(), Failure::InvalidSubscriptionId);
    assert_eq!(error.category, Category::SubscriptionInvalid);
    assert_eq!(error.detail, "Invalid subscription ID");
}

#[test]
fn full_slots_are_capacity_exceeded() {
    let error = classify(&session(), Failure::MaxSlotsExceeded);
    assert_eq!(error.category, Category::CapacityExceeded);
    assert_eq!(error.detail, "Max concurrent requests exceeded");
}

#[test]
fn custom_failure_is_local_validation() {
    let error = classify(&session(), Failure::Custom { message: "no such file".to_string() });
    assert_eq!(error.category, Category::LocalValidation("no such file".to_string()));
    assert_eq!(error.detail, "Custom error: no such file");
    assert_eq!(error.render(), "Custom error: no such file");
}

#[test]
fn empty_batch_is_local_validation() {
    let error = classify(&session(), Failure::EmptyBatchRequest { cause: "empty".to_string() });
    assert_eq!(error.category, Category::LocalValidation("empty".to_string()));
    assert_eq!(error.detail, "Empty batch request: empty");
}

#[test]
fn failed_registration_is_local_validation() {
    let error = classify(&session(), Failure::RegisterMethod { cause: "taken".to_string() });
    assert_eq!(error.category, Category::LocalValidation("taken".to_string()));
    assert_eq!(error.detail, "Register method error: taken");
}

#[test]
fn local_validation_error_carries_its_message() {
    let error = ReportableError::local_validation("bad input".to_string());
    assert_eq!(
        error,
        ReportableError {
            category: Category::LocalValidation("bad input".to_string()),
            detail: "Custom error: bad input".to_string(),
        }
    );
}

#[test]
fn only_a_rejection_is_shown_as_a_document() {
    let looks_like_json = ReportableError {
        category: Category::ProtocolDecode,
        detail: "{\"code\": 1}".to_string(),
    };
    assert_eq!(looks_like_json.render(), "{\"code\": 1}");
    let rejection = ReportableError {
        category: Category::RemoteRejected(7, "no".to_string()),
        detail: "ignored".to_string(),
    };
    assert_eq!(rejection.render(), "{\n  \"code\": 7,\n  \"message\": \"no\"\n}");
}
