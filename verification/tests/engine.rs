// The fetch engine, the refresh protocol, the timeout resolver and the
// snapshot merge.

use i2pd_exporter::client::auth_outcome;
use i2pd_exporter::client::refresh_decision;
use i2pd_exporter::client::AuthFlow;
use i2pd_exporter::client::FetchEngine;
use i2pd_exporter::client::FetchError;
use i2pd_exporter::client::FetchEvent;
use i2pd_exporter::client::FetchStep;
use i2pd_exporter::numtext::parse_i32_text;
use i2pd_exporter::numtext::parse_u64_digits;
use i2pd_exporter::numtext::parse_u8_digits;
use i2pd_exporter::rpc::RpcCallError;
use i2pd_exporter::server::bucket_state;
use i2pd_exporter::server::choose_content_type;
use i2pd_exporter::server::scrape_error_flag;
use i2pd_exporter::server::scrape_status;
use i2pd_exporter::server::NetStateLabel;
use i2pd_exporter::server::ScrapeOutcome;
use i2pd_exporter::timeout::effective_timeout;
use i2pd_exporter::types::AuthResult;
use i2pd_exporter::types::RouterInfoResult;

#[test]
fn timeout_no_header_is_none() {
    assert!(effective_timeout(None, 60_000).is_none());
}

#[test]
fn timeout_smaller_header_wins_with_margin_above_threshold() {
    // 3.1s > 3.0s: apply the 0.5s margin, 3.1s - 0.5s = 2.6s
    assert_eq!(effective_timeout(Some(3_100), 60_000), Some(2_600));
}

#[test]
fn timeout_large_header_is_capped_by_max() {
    // 30.0s - 0.5s = 29.5s, but the cap is 10s
    assert_eq!(effective_timeout(Some(30_000), 10_000), Some(10_000));
}

#[test]
fn timeout_small_header_kept_no_margin() {
    // 0.2s <= 3.0s: no margin, stays 0.2s
    assert_eq!(effective_timeout(Some(200), 60_000), Some(200));
}

#[test]
fn timeout_header_negative_value_clamped_to_min() {
    // -5s is clamped to the 0.1s floor
    assert_eq!(effective_timeout(Some(-5_000), 60_000), Some(100));
}

#[test]
fn timeout_header_non_numeric_is_none() {
    // a header that does not parse as a finite number carries no hint
    let hint = "not-a-number".parse::<f64>().ok().map(|s| (s * 1000.0) as i64);
    assert!(effective_timeout(hint, 60_000).is_none());
}

// The stub outcome of one successful network authentication.
fn stub_auth_success() -> Result<AuthResult, RpcCallError> {
    Ok(AuthResult {
        token: Some("tok".to_string()),
    })
}

#[test]
fn singleflight_one_network_call_for_concurrent_refreshes() {
    // Three callers race into a refresh with no cached token. The refresh
    // guard serializes their sections; each section re-reads the shared
    // token after acquiring the guard.
    let mut shared: Option<String> = None;
    let mut network_calls = 0;
    for _ in 0..3 {
        match refresh_decision(shared.clone()) {
            AuthFlow::Reuse(t) => {
                assert_eq!(t, "tok");
            }
            AuthFlow::CallNetwork => {
                network_calls += 1;
                let (store, result) = auth_outcome(stub_auth_success());
                if let Some(t) = store {
                    shared = Some(t);
                }
                assert_eq!(result.unwrap(), "tok");
            }
        }
    }
    assert_eq!(network_calls, 1);
}

#[test]
fn auth_without_token_is_terminal_failure() {
    let (store, result) = auth_outcome(Ok(AuthResult { token: None }));
    assert!(store.is_none());
    assert!(matches!(result, Err(FetchError::AuthenticationFailed)));
}

// The credential-expiry error the stub server answers with.
fn expiry_error() -> RpcCallError {
    RpcCallError::Rpc {
        code: -32003,
        message: "token expired".to_string(),
        method: "RouterInfo".to_string(),
    }
}

#[test]
fn bounded_retry_two_attempts_then_error() {
    // A stub server that always reports credential expiry on the status
    // fetch and always authenticates: the call must end in an error after
    // at most two status-fetch and two authentication dispatches, without
    // hanging.
    let mut shared: Option<String> = None;
    let (mut engine, first) = FetchEngine::start(1_000, 5_000);
    assert!(matches!(first, FetchStep::ReadToken));
    let mut step = first;
    let mut rpc_calls = 0;
    let mut auth_calls = 0;
    let mut now = 1_000u64;
    let mut rounds = 0;
    let outcome = loop {
        rounds += 1;
        assert!(rounds <= 16, "the engine must terminate");
        now += 100;
        let event = match step {
            FetchStep::ReadToken => FetchEvent::TokenIs(shared.clone()),
            FetchStep::Authenticate { .. } => {
                auth_calls += 1;
                let (store, result) = auth_outcome(stub_auth_success());
                if let Some(t) = store {
                    shared = Some(t);
                }
                FetchEvent::AuthCompleted(result)
            }
            FetchStep::CallRouterInfo { ref token, .. } => {
                assert_eq!(token, "tok");
                rpc_calls += 1;
                FetchEvent::RpcCompleted(Err(expiry_error()))
            }
            FetchStep::ClearToken => {
                shared = None;
                FetchEvent::TokenCleared
            }
            FetchStep::Done(result) => break result,
        };
        step = engine.step(event, now);
    };
    assert_eq!(rpc_calls, 2);
    assert_eq!(auth_calls, 2);
    match outcome {
        Err(FetchError::Call(RpcCallError::Rpc { code, .. })) => assert_eq!(code, -32003),
        _ => panic!("the second expiry must surface as the Rpc error"),
    }
}

#[test]
fn fetch_succeeds_with_cached_token() {
    let (mut engine, first) = FetchEngine::start(0, 2_000);
    assert!(matches!(first, FetchStep::ReadToken));
    let step = engine.step(FetchEvent::TokenIs(Some("tok".to_string())), 10);
    let timeout_ms = match step {
        FetchStep::CallRouterInfo { token, timeout_ms } => {
            assert_eq!(token, "tok");
            timeout_ms
        }
        _ => panic!("a cached token goes straight to the status call"),
    };
    assert_eq!(timeout_ms, 1_990);
    let data = RouterInfoResult::default();
    let step = engine.step(FetchEvent::RpcCompleted(Ok(data)), 50);
    assert!(matches!(step, FetchStep::Done(Ok(_))));
}

#[test]
fn fetch_fails_fast_when_budget_is_spent() {
    let (mut engine, _) = FetchEngine::start(1_000, 500);
    let step = engine.step(FetchEvent::TokenIs(None), 1_500);
    assert!(matches!(
        step,
        FetchStep::Done(Err(FetchError::DeadlineExceeded))
    ));
}

#[test]
fn non_credential_error_is_not_retried() {
    let (mut engine, _) = FetchEngine::start(0, 5_000);
    let step = engine.step(FetchEvent::TokenIs(Some("tok".to_string())), 10);
    assert!(matches!(step, FetchStep::CallRouterInfo { .. }));
    let err = RpcCallError::Rpc {
        code: -32600,
        message: "invalid request".to_string(),
        method: "RouterInfo".to_string(),
    };
    let step = engine.step(FetchEvent::RpcCompleted(Err(err)), 20);
    match step {
        FetchStep::Done(Err(FetchError::Call(RpcCallError::Rpc { code, .. }))) => {
            assert_eq!(code, -32600)
        }
        _ => panic!("a non-credential error must surface unchanged"),
    }
}

#[test]
fn merge_prefers_later_values_only_where_present() {
    let mut a = RouterInfoResult::default();
    a.tunnels_inbound = Some(5);
    let mut b = RouterInfoResult::default();
    b.tunnels_outbound = Some(7);
    a.merge_from(b);
    assert_eq!(a.tunnels_inbound, Some(5));
    assert_eq!(a.tunnels_outbound, Some(7));

    let mut c = RouterInfoResult::default();
    c.tunnels_inbound = Some(9);
    a.tunnels_outbound = None;
    a.merge_from(c);
    assert_eq!(a.tunnels_inbound, Some(9));
    assert_eq!(a.tunnels_outbound, None);
}

#[test]
fn merge_keeps_strings_and_overwrites_them() {
    let mut a = RouterInfoResult::default();
    a.router_version = Some("2.47.0".to_string());
    let mut b = RouterInfoResult::default();
    b.router_version = Some("2.48.0".to_string());
    a.merge_from(b);
    assert_eq!(a.router_version.as_deref(), Some("2.48.0"));
    a.merge_from(RouterInfoResult::default());
    assert_eq!(a.router_version.as_deref(), Some("2.48.0"));
}

#[test]
fn scrape_status_maps_timeouts_to_gateway_timeout() {
    assert_eq!(scrape_status(&ScrapeOutcome::TimedOut), 504);
    assert_eq!(
        scrape_status(&ScrapeOutcome::Completed(Err(FetchError::DeadlineExceeded))),
        504
    );
    assert_eq!(
        scrape_status(&ScrapeOutcome::Completed(Err(FetchError::Call(
            RpcCallError::Transport {
                message: "timed out".to_string(),
                timed_out: true,
            }
        )))),
        504
    );
    assert_eq!(
        scrape_status(&ScrapeOutcome::Completed(Err(FetchError::Call(
            RpcCallError::Transport {
                message: "refused".to_string(),
                timed_out: false,
            }
        )))),
        500
    );
    assert_eq!(
        scrape_status(&ScrapeOutcome::Completed(Err(
            FetchError::AuthenticationFailed
        ))),
        500
    );
    assert_eq!(
        scrape_status(&ScrapeOutcome::Completed(Ok(RouterInfoResult::default()))),
        200
    );
}

#[test]
fn scrape_error_flag_is_zero_only_on_success() {
    assert_eq!(
        scrape_error_flag(&ScrapeOutcome::Completed(Ok(RouterInfoResult::default()))),
        0
    );
    assert_eq!(scrape_error_flag(&ScrapeOutcome::TimedOut), 1);
    assert_eq!(
        scrape_error_flag(&ScrapeOutcome::Completed(Err(FetchError::DeadlineExceeded))),
        1
    );
}

#[test]
fn content_type_is_always_openmetrics() {
    let om = "application/openmetrics-text; version=1.0.0; charset=utf-8";
    assert_eq!(choose_content_type(None), om);
    assert_eq!(choose_content_type(Some("text/plain")), om);
    assert_eq!(choose_content_type(Some("application/openmetrics-text")), om);
}

#[test]
fn bucket_state_lights_exactly_one_label() {
    let labels = [
        NetStateLabel::Okay,
        NetStateLabel::Firewalled,
        NetStateLabel::Unknown,
        NetStateLabel::Proxy,
        NetStateLabel::Mesh,
    ];
    for code in 0u8..5 {
        let on: Vec<bool> = labels.iter().map(|l| bucket_state(code, *l)).collect();
        assert_eq!(on.iter().filter(|b| **b).count(), 1);
        assert!(on[code as usize]);
    }
    // an unknown code lights only the "unknown" bucket
    assert!(bucket_state(9, NetStateLabel::Unknown));
    assert!(!bucket_state(9, NetStateLabel::Okay));
    assert!(!bucket_state(9, NetStateLabel::Mesh));
}

#[test]
fn decimal_parsers_accept_exactly_the_decimal_grammar() {
    assert_eq!(parse_u64_digits("0"), Some(0));
    assert_eq!(parse_u64_digits("18446744073709551615"), Some(u64::MAX));
    assert_eq!(parse_u64_digits("18446744073709551616"), None);
    assert_eq!(parse_u64_digits(""), None);
    assert_eq!(parse_u64_digits("12a"), None);
    assert_eq!(parse_u64_digits("-1"), None);
    assert_eq!(parse_u8_digits("255"), Some(255));
    assert_eq!(parse_u8_digits("256"), None);
    assert_eq!(parse_i32_text("-32003"), Some(-32003));
    assert_eq!(parse_i32_text("2147483647"), Some(i32::MAX));
    assert_eq!(parse_i32_text("-2147483648"), Some(i32::MIN));
    assert_eq!(parse_i32_text("-2147483649"), None);
    assert_eq!(parse_i32_text("3.5"), None);
}
