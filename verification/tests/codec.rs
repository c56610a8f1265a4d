// The JSON codec: request building, redaction, response interpretation.

use i2pd_exporter::json::to_json_string;
use i2pd_exporter::json::JsonVal;
use i2pd_exporter::rpc::RpcCallError;
use i2pd_exporter::rpc::truncate_chars;
use i2pd_exporter::transport::auth_request_doc;
use i2pd_exporter::transport::interpret_response_auth;
use i2pd_exporter::transport::interpret_response_router_info;
use i2pd_exporter::transport::redacted_request_text;
use i2pd_exporter::transport::router_info_request_doc;

#[test]
fn test_truncate_chars() {
    assert_eq!(truncate_chars("abcd", 10), "abcd");
    assert_eq!(truncate_chars("abcdef", 4), "abcd");
    assert_eq!(truncate_chars("éèà", 2), "éè");
}

#[test]
fn auth_request_body_is_exact() {
    let doc = auth_request_doc("pw");
    let body = to_json_string(&doc);
    assert_eq!(
        body,
        "{\"id\":1,\"jsonrpc\":\"2.0\",\"method\":\"Authenticate\",\"params\":{\"API\":1,\"Password\":\"pw\"}}"
    );
}

#[test]
fn auth_request_body_escapes_password() {
    let doc = auth_request_doc("a\"b\\c\nd");
    let body = to_json_string(&doc);
    // The body must be valid JSON that round-trips to the same password.
    let v: serde_json::Value = serde_json::from_str(&body).expect("request body parses");
    let pw = v
        .get("params")
        .and_then(|p| p.get("Password"))
        .and_then(|p| p.as_str())
        .expect("password present");
    assert_eq!(pw, "a\"b\\c\nd");
}

#[test]
fn router_info_request_carries_token_and_keys() {
    let doc = router_info_request_doc("sessiontoken");
    let body = to_json_string(&doc);
    let v: serde_json::Value = serde_json::from_str(&body).expect("request body parses");
    assert_eq!(v.get("method").and_then(|m| m.as_str()), Some("RouterInfo"));
    let params = v.get("params").expect("params present");
    assert_eq!(
        params.get("Token").and_then(|t| t.as_str()),
        Some("sessiontoken")
    );
    assert_eq!(
        params.get("i2p.router.uptime").and_then(|t| t.as_str()),
        Some("")
    );
    assert_eq!(
        params
            .get("i2p.router.net.tunnels.participating")
            .and_then(|t| t.as_str()),
        Some("")
    );
}

#[test]
fn redacted_request_never_reveals_credentials() {
    let doc = auth_request_doc("topsecretpw");
    let logged = redacted_request_text(&doc);
    assert!(!logged.contains("topsecretpw"));
    assert!(logged.contains("***redacted***"));
}

#[test]
fn redaction_reaches_nested_objects_and_arrays() {
    let doc = JsonVal::Obj(vec![(
        "outer".to_string(),
        JsonVal::Arr(vec![JsonVal::Obj(vec![
            ("Token".to_string(), JsonVal::Str("tok123".to_string())),
            ("kept".to_string(), JsonVal::UInt(7)),
        ])]),
    )]);
    let logged = redacted_request_text(&doc);
    assert!(!logged.contains("tok123"));
    assert!(logged.contains("***redacted***"));
    assert!(logged.contains("\"kept\":7"));
}

#[test]
fn result_body_decodes_to_success() {
    let body = "{\"result\": {\"Token\": \"abc\"}}";
    let r = interpret_response_auth(200, body).expect("success branch");
    assert_eq!(r.token.as_deref(), Some("abc"));
}

#[test]
fn error_body_decodes_to_rpc_branch() {
    let body = "{\"error\": {\"code\": -32003, \"message\": \"x\"}}";
    let err = interpret_response_router_info(200, body).unwrap_err();
    match err {
        RpcCallError::Rpc {
            code,
            message,
            method,
        } => {
            assert_eq!(code, -32003);
            assert_eq!(message, "x");
            assert_eq!(method, "RouterInfo");
        }
        other => panic!("expected the Rpc branch, got {:?}", kind_of(&other)),
    }
}

#[test]
fn body_with_neither_key_is_a_decode_failure() {
    let err = interpret_response_router_info(200, "{\"neither\": 1}").unwrap_err();
    assert_eq!(kind_of(&err), "Decode");
}

#[test]
fn body_with_both_keys_is_a_decode_failure() {
    let body = "{\"result\": {}, \"error\": {\"code\": -1, \"message\": \"m\"}}";
    let err = interpret_response_router_info(200, body).unwrap_err();
    assert_eq!(kind_of(&err), "Decode");
}

#[test]
fn invalid_json_is_a_decode_failure() {
    let err = interpret_response_router_info(200, "not json at all").unwrap_err();
    assert_eq!(kind_of(&err), "Decode");
}

#[test]
fn malformed_error_object_is_a_decode_failure() {
    let err =
        interpret_response_router_info(200, "{\"error\": {\"code\": \"nan\"}}").unwrap_err();
    assert_eq!(kind_of(&err), "Decode");
}

#[test]
fn non_success_status_is_an_http_failure_with_snippet() {
    let err = interpret_response_router_info(503, "upstream said no").unwrap_err();
    match err {
        RpcCallError::Http {
            status,
            method,
            body_snippet,
        } => {
            assert_eq!(status, 503);
            assert_eq!(method, "RouterInfo");
            assert_eq!(body_snippet, "upstream said no");
        }
        other => panic!("expected the Http branch, got {:?}", kind_of(&other)),
    }
}

#[test]
fn long_http_body_snippet_is_truncated() {
    let body: String = std::iter::repeat('x').take(3000).collect();
    let err = interpret_response_router_info(500, &body).unwrap_err();
    match err {
        RpcCallError::Http { body_snippet, .. } => {
            assert_eq!(body_snippet.chars().count(), 2048);
        }
        other => panic!("expected the Http branch, got {:?}", kind_of(&other)),
    }
}

#[test]
fn auth_errors_never_contain_the_body() {
    let err = interpret_response_auth(500, "secret material in body").unwrap_err();
    match err {
        RpcCallError::Http { body_snippet, .. } => {
            assert_eq!(body_snippet, "<omitted>");
        }
        other => panic!("expected the Http branch, got {:?}", kind_of(&other)),
    }
    let err = interpret_response_auth(200, "secret material, not json").unwrap_err();
    match err {
        RpcCallError::Decode { body_snippet, .. } => {
            assert_eq!(body_snippet, "<omitted>");
        }
        other => panic!("expected the Decode branch, got {:?}", kind_of(&other)),
    }
}

#[test]
fn router_info_fields_decode_with_string_coercion() {
    let body = "{\"result\": {\
        \"i2p.router.status\": \"1\",\
        \"i2p.router.version\": \"2.48.0\",\
        \"i2p.router.uptime\": \"123456\",\
        \"i2p.router.net.bw.inbound.1s\": 12.5,\
        \"i2p.router.net.status\": 2,\
        \"i2p.router.net.tunnels.participating\": 17,\
        \"i2p.router.netdb.knownpeers\": 4321,\
        \"i2p.router.net.total.received.bytes\": 1048576.0\
        }}";
    let ri = interpret_response_router_info(200, body).expect("decodes");
    assert_eq!(ri.router_status, Some(1));
    assert_eq!(ri.router_version.as_deref(), Some("2.48.0"));
    assert_eq!(ri.router_uptime, Some(123456));
    assert_eq!(ri.bw_inbound_1s.as_deref(), Some("12.5"));
    assert_eq!(ri.net_status, Some(2));
    assert_eq!(ri.tunnels_participating, Some(17));
    assert_eq!(ri.netdb_knownpeers, Some(4321));
    assert_eq!(ri.net_total_received_bytes.as_deref(), Some("1048576.0"));
    assert_eq!(ri.net_status_v6, None);
    assert_eq!(ri.tunnels_queue, None);
}

#[test]
fn null_fields_mean_absence() {
    let body = "{\"result\": {\"i2p.router.status\": null, \"i2p.router.version\": null}}";
    let ri = interpret_response_router_info(200, body).expect("decodes");
    assert_eq!(ri.router_status, None);
    assert_eq!(ri.router_version, None);
}

#[test]
fn empty_string_in_coerced_field_means_absence() {
    let body = "{\"result\": {\"i2p.router.uptime\": \"\"}}";
    let ri = interpret_response_router_info(200, body).expect("decodes");
    assert_eq!(ri.router_uptime, None);
}

#[test]
fn mistyped_field_fails_the_decode() {
    let body = "{\"result\": {\"i2p.router.version\": 7}}";
    let err = interpret_response_router_info(200, body).unwrap_err();
    assert_eq!(kind_of(&err), "Decode");
    let body = "{\"result\": {\"i2p.router.netdb.knownpeers\": -3}}";
    let err = interpret_response_router_info(200, body).unwrap_err();
    assert_eq!(kind_of(&err), "Decode");
}

#[test]
fn auth_result_without_token_decodes_to_none() {
    let r = interpret_response_auth(200, "{\"result\": {}}").expect("success branch");
    assert!(r.token.is_none());
}

fn kind_of(e: &RpcCallError) -> &'static str {
    match e {
        RpcCallError::Transport { .. } => "Transport",
        RpcCallError::Encode { .. } => "Encode",
        RpcCallError::Http { .. } => "Http",
        RpcCallError::Rpc { .. } => "Rpc",
        RpcCallError::Decode { .. } => "Decode",
    }
}
