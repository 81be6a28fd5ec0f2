use ngx_inference::bbr::{BbrAction, BbrProcessor};
use ngx_inference::client::EppCallError;
use ngx_inference::config::ModuleConfig;
use ngx_inference::epp::{inference_upstream_value, EppProcessor};
use ngx_inference::outcome::{RejectStatus, StageOutcome};
use ngx_inference::pipeline::run_request;

fn header_value(headers: &[(String, String)], key: &str) -> Option<String> {
    headers
        .iter()
        .find(|(k, _)| k.eq_ignore_ascii_case(key))
        .map(|(_, v)| v.clone())
}

fn bbr_conf() -> ModuleConfig {
    let mut conf = ModuleConfig::default();
    conf.bbr_enable = true;
    conf
}

fn epp_conf(fail_open: bool) -> ModuleConfig {
    let mut conf = ModuleConfig::default();
    conf.epp_enable = true;
    conf.epp_endpoint = Some("epp.internal:9001".to_string());
    conf.epp_failure_mode_allow = fail_open;
    conf
}

#[test]
fn body_model_is_written_to_the_model_header() {
    // Body names a model, the stage is enabled, the header is absent.
    let conf = bbr_conf();
    let mut headers: Vec<(String, String)> = vec![("host".to_string(), "a".to_string())];
    let segments = vec![br#"{"model":"gpt-4","prompt":"hi"}"#.to_vec()];
    let outcome = run_request(&mut headers, &conf, &segments, Ok(None));
    assert_eq!(outcome, StageOutcome::Continue);
    assert_eq!(header_value(&headers, "X-Gateway-Model-Name"), Some("gpt-4".to_string()));
}

#[test]
fn missing_model_falls_back_to_the_default() {
    let mut conf = bbr_conf();
    conf.bbr_default_model = "unknown".to_string();
    let mut headers: Vec<(String, String)> = Vec::new();
    let segments = vec![br#"{"prompt":"hi"}"#.to_vec()];
    let outcome = run_request(&mut headers, &conf, &segments, Ok(None));
    assert_eq!(outcome, StageOutcome::Continue);
    assert_eq!(header_value(&headers, "X-Gateway-Model-Name"), Some("unknown".to_string()));
}

#[test]
fn empty_body_names_no_model_and_gets_the_default() {
    // A successfully collected empty body is an extraction miss like any
    // other: the configured default is substituted.
    let mut conf = bbr_conf();
    conf.bbr_default_model = "unknown".to_string();
    let mut headers: Vec<(String, String)> = Vec::new();
    let segments: Vec<Vec<u8>> = Vec::new();
    let outcome = run_request(&mut headers, &conf, &segments, Ok(None));
    assert_eq!(outcome, StageOutcome::Continue);
    assert_eq!(header_value(&headers, "X-Gateway-Model-Name"), Some("unknown".to_string()));
}

#[test]
fn epp_answer_is_written_to_the_upstream_header() {
    let conf = epp_conf(false);
    let mut headers: Vec<(String, String)> = Vec::new();
    let segments: Vec<Vec<u8>> = Vec::new();
    let outcome =
        run_request(&mut headers, &conf, &segments, Ok(Some("10.0.0.5:8000".to_string())));
    assert_eq!(outcome, StageOutcome::Continue);
    assert_eq!(header_value(&headers, "X-Inference-Upstream"), Some("10.0.0.5:8000".to_string()));
}

#[test]
fn timeout_fail_closed_rejects_with_timeout_status() {
    let conf = epp_conf(false);
    let mut headers: Vec<(String, String)> = Vec::new();
    let segments: Vec<Vec<u8>> = Vec::new();
    let outcome = run_request(&mut headers, &conf, &segments, Err(EppCallError::Timeout));
    assert_eq!(outcome, StageOutcome::Reject(RejectStatus::GatewayTimeout));
    assert!(headers.is_empty());
}

#[test]
fn timeout_fail_open_continues_with_the_default() {
    let mut conf = epp_conf(true);
    conf.default_upstream = Some("fallback:8000".to_string());
    let mut headers: Vec<(String, String)> = Vec::new();
    let segments: Vec<Vec<u8>> = Vec::new();
    let outcome = run_request(&mut headers, &conf, &segments, Err(EppCallError::Timeout));
    assert_eq!(outcome, StageOutcome::Continue);
    assert_eq!(header_value(&headers, "X-Inference-Upstream"), Some("fallback:8000".to_string()));
}

#[test]
fn oversized_body_rejects_before_model_extraction() {
    // Eleven megabytes against a ten-megabyte ceiling; the body is not even
    // JSON, which no outcome depends on since extraction never runs. The
    // stage's fail-open flag does not soften the size rejection.
    let mut conf = bbr_conf();
    conf.epp_failure_mode_allow = true;
    let mut headers: Vec<(String, String)> = Vec::new();
    let segments = vec![vec![b'x'; 11 * 1024 * 1024]];
    let outcome = run_request(&mut headers, &conf, &segments, Ok(None));
    assert_eq!(outcome, StageOutcome::Reject(RejectStatus::PayloadTooLarge));
    assert!(headers.is_empty());
}

#[test]
fn present_model_header_skips_bbr_entirely() {
    let conf = bbr_conf();
    let headers: Vec<(String, String)> =
        vec![("x-gateway-model-name".to_string(), "preset".to_string())];
    assert_eq!(BbrProcessor::process_request(&headers, &conf), BbrAction::Declined);
    // Through the whole pipeline: headers stay exactly as they were, even
    // though the body names another model.
    let mut hs = headers.clone();
    let segments = vec![br#"{"model":"gpt-4"}"#.to_vec()];
    let outcome = run_request(&mut hs, &conf, &segments, Ok(None));
    assert_eq!(outcome, StageOutcome::Continue);
    assert_eq!(hs, headers);
}

#[test]
fn present_upstream_header_skips_epp_entirely() {
    let conf = epp_conf(false);
    let headers: Vec<(String, String)> =
        vec![("X-Inference-Upstream".to_string(), "pinned:1".to_string())];
    assert!(EppProcessor::process_request(&headers, &conf).is_none());
    let mut hs = headers.clone();
    let segments: Vec<Vec<u8>> = Vec::new();
    // Even a failing call result leaves the request untouched: no call
    // would have been dispatched.
    let outcome = run_request(&mut hs, &conf, &segments, Err(EppCallError::Transport));
    assert_eq!(outcome, StageOutcome::Continue);
    assert_eq!(hs, headers);
}

#[test]
fn epp_silence_fail_closed_rejects_with_gateway_status() {
    let conf = epp_conf(false);
    let mut headers: Vec<(String, String)> = Vec::new();
    let outcome = EppProcessor::apply_result(&mut headers, &conf, Ok(None));
    assert_eq!(outcome, StageOutcome::Reject(RejectStatus::BadGateway));
    assert!(headers.is_empty());
}

#[test]
fn transport_and_protocol_failures_reject_with_gateway_status() {
    let conf = epp_conf(false);
    for err in [EppCallError::Transport, EppCallError::Protocol] {
        let mut headers: Vec<(String, String)> = Vec::new();
        let outcome = EppProcessor::apply_result(&mut headers, &conf, Err(err));
        assert_eq!(outcome, StageOutcome::Reject(RejectStatus::BadGateway));
    }
}

#[test]
fn fail_open_without_default_continues_without_header() {
    let conf = epp_conf(true);
    let mut headers: Vec<(String, String)> = Vec::new();
    let outcome = EppProcessor::apply_result(&mut headers, &conf, Err(EppCallError::Transport));
    assert_eq!(outcome, StageOutcome::Continue);
    assert!(headers.is_empty());
}

#[test]
fn epp_observes_headers_as_bbr_left_them() {
    // Both stages run; the context EPP would forward carries the header
    // that BBR just set.
    let mut conf = bbr_conf();
    conf.epp_enable = true;
    conf.epp_endpoint = Some("epp.internal:9001".to_string());
    let mut headers: Vec<(String, String)> = Vec::new();
    let segments = vec![br#"{"model":"m1"}"#.to_vec()];
    let collected = ngx_inference::body::collect_segments(&segments, conf.max_body_size);
    let s1 = BbrProcessor::on_body_collected(&mut headers, &conf, collected);
    assert_eq!(s1, StageOutcome::Continue);
    let ctx = EppProcessor::process_request(&headers, &conf).expect("stage should call out");
    assert!(ctx.headers.iter().any(|(k, v)| k == "X-Gateway-Model-Name" && v == "m1"));
}

#[test]
fn upstream_variable_reads_header_then_default() {
    let mut conf = epp_conf(false);
    conf.default_upstream = Some("default:1".to_string());
    let headers = vec![("x-inference-upstream".to_string(), "chosen:2".to_string())];
    assert_eq!(inference_upstream_value(&headers, &conf), Some("chosen:2".to_string()));
    let empty: Vec<(String, String)> = Vec::new();
    assert_eq!(inference_upstream_value(&empty, &conf), Some("default:1".to_string()));
    conf.default_upstream = None;
    assert_eq!(inference_upstream_value(&empty, &conf), None);
}

#[test]
fn custom_header_names_are_honoured() {
    let mut conf = bbr_conf();
    conf.bbr_header_name = "X-Model".to_string();
    let mut headers: Vec<(String, String)> = Vec::new();
    let segments = vec![br#"{"model":"m2"}"#.to_vec()];
    let outcome = run_request(&mut headers, &conf, &segments, Ok(None));
    assert_eq!(outcome, StageOutcome::Continue);
    assert_eq!(header_value(&headers, "X-Model"), Some("m2".to_string()));
    assert_eq!(header_value(&headers, "X-Gateway-Model-Name"), None);
}
