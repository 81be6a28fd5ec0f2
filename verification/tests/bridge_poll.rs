use ngx_inference::bridge::{
    poll_decision, result_channel, AsyncEppContext, BodyReadContext, ChannelPoll, PollAction,
    PollResolution, ResultWatcher,
};
use ngx_inference::outcome::{RejectStatus, StageOutcome};

fn ctx(fail_open: bool, default_upstream: Option<&str>) -> AsyncEppContext {
    AsyncEppContext {
        endpoint: "epp.internal:9001".to_string(),
        upstream_header: "X-Inference-Upstream".to_string(),
        timeout_ms: 200,
        headers: Vec::new(),
        use_tls: false,
        ca_file: None,
        failure_mode_allow: fail_open,
        default_upstream: default_upstream.map(|s| s.to_string()),
    }
}

#[test]
fn pending_channel_reschedules() {
    let (_tx, rx) = result_channel();
    let mut watcher = ResultWatcher::new(rx, ctx(false, None));
    let now = watcher.start_time_ms;
    assert!(matches!(watcher.poll(true, now), PollAction::Reschedule));
}

#[test]
fn delivered_result_is_taken_once_ready() {
    let (tx, rx) = result_channel();
    let mut watcher = ResultWatcher::new(rx, ctx(false, None));
    tx.send(Ok("10.0.0.5:8000".to_string()));
    let now = watcher.start_time_ms;
    match watcher.poll(true, now) {
        PollAction::Deliver(Ok(v)) => assert_eq!(v, "10.0.0.5:8000"),
        other => panic!("expected delivery, got {:?}", action_name(&other)),
    }
}

#[test]
fn dead_request_outranks_a_waiting_result() {
    let (tx, rx) = result_channel();
    let mut watcher = ResultWatcher::new(rx, ctx(false, None));
    tx.send(Ok("late".to_string()));
    let now = watcher.start_time_ms;
    assert!(matches!(watcher.poll(false, now), PollAction::TearDown));
}

#[test]
fn spent_budget_outranks_a_waiting_result() {
    // The answer is already in the channel, but the budget is spent: the
    // poll resolves as a timeout and the late result is never delivered.
    let (tx, rx) = result_channel();
    let mut watcher = ResultWatcher::new(rx, ctx(false, None));
    tx.send(Ok("late".to_string()));
    let late = watcher.start_time_ms + watcher.ctx.timeout_ms + 1;
    assert!(matches!(watcher.poll(true, late), PollAction::FinalizeTimeout));
}

#[test]
fn lost_worker_is_reported() {
    let (tx, rx) = result_channel();
    drop(tx);
    let mut watcher = ResultWatcher::new(rx, ctx(false, None));
    let now = watcher.start_time_ms;
    assert!(matches!(watcher.poll(true, now), PollAction::ChannelLost));
}

#[test]
fn budget_is_spent_only_past_the_timeout() {
    let (_tx, rx) = result_channel();
    let watcher = ResultWatcher::new(rx, ctx(false, None));
    let start = watcher.start_time_ms;
    assert!(!watcher.timed_out_at(start));
    assert!(!watcher.timed_out_at(start + 200));
    assert!(watcher.timed_out_at(start + 201));
    // A clock that moved backwards counts as no time passed.
    assert!(!watcher.timed_out_at(start.wrapping_sub(1).min(start)));
}

#[test]
fn poll_rule_orders_cancellation_timeout_result() {
    let ready = || ChannelPoll::Ready(Ok("v".to_string()));
    assert!(matches!(poll_decision(false, true, ready()), PollAction::TearDown));
    assert!(matches!(poll_decision(true, true, ready()), PollAction::FinalizeTimeout));
    assert!(matches!(poll_decision(true, false, ready()), PollAction::Deliver(_)));
    assert!(matches!(poll_decision(true, false, ChannelPoll::Pending), PollAction::Reschedule));
    assert!(matches!(poll_decision(true, false, ChannelPoll::Lost), PollAction::ChannelLost));
}

#[test]
fn timeout_resolution_rejects_fail_closed_with_timeout_status() {
    let c = ctx(false, Some("fallback:8000"));
    let mut headers: Vec<(String, String)> = Vec::new();
    match ngx_inference::bridge::resolve_poll(&mut headers, &c, PollAction::FinalizeTimeout) {
        PollResolution::Settled(out) => {
            assert_eq!(out, StageOutcome::Reject(RejectStatus::GatewayTimeout))
        },
        _ => panic!("expected a settled call"),
    }
    // Fail-closed applies no default.
    assert!(headers.is_empty());
}

#[test]
fn timeout_resolution_fails_open_to_the_default() {
    let c = ctx(true, Some("fallback:8000"));
    let mut headers: Vec<(String, String)> = Vec::new();
    match ngx_inference::bridge::resolve_poll(&mut headers, &c, PollAction::FinalizeTimeout) {
        PollResolution::Settled(out) => assert_eq!(out, StageOutcome::Continue),
        _ => panic!("expected a settled call"),
    }
    assert_eq!(headers, vec![("X-Inference-Upstream".to_string(), "fallback:8000".to_string())]);
}

#[test]
fn delivered_value_is_written_to_the_upstream_header() {
    let c = ctx(false, None);
    let mut headers: Vec<(String, String)> = Vec::new();
    let action = PollAction::Deliver(Ok("10.0.0.5:8000".to_string()));
    match ngx_inference::bridge::resolve_poll(&mut headers, &c, action) {
        PollResolution::Settled(out) => assert_eq!(out, StageOutcome::Continue),
        _ => panic!("expected a settled call"),
    }
    assert_eq!(headers, vec![("X-Inference-Upstream".to_string(), "10.0.0.5:8000".to_string())]);
}

#[test]
fn worker_failure_report_follows_the_failure_policy() {
    let c = ctx(false, None);
    let mut headers: Vec<(String, String)> = Vec::new();
    let action = PollAction::Deliver(Err("EPP transport error".to_string()));
    match ngx_inference::bridge::resolve_poll(&mut headers, &c, action) {
        PollResolution::Settled(out) => {
            assert_eq!(out, StageOutcome::Reject(RejectStatus::BadGateway))
        },
        _ => panic!("expected a settled call"),
    }
}

#[test]
fn abandoned_and_waiting_polls_touch_nothing() {
    let c = ctx(true, Some("d:1"));
    let mut headers: Vec<(String, String)> = Vec::new();
    assert!(matches!(
        ngx_inference::bridge::resolve_poll(&mut headers, &c, PollAction::TearDown),
        PollResolution::Abandoned
    ));
    assert!(matches!(
        ngx_inference::bridge::resolve_poll(&mut headers, &c, PollAction::Reschedule),
        PollResolution::KeepWaiting
    ));
    assert!(headers.is_empty());
}

#[test]
fn body_read_context_carries_the_call_context() {
    let c = ctx(true, None);
    let wrapped = BodyReadContext::new(c.clone());
    assert_eq!(wrapped.epp_ctx.endpoint, c.endpoint);
    assert_eq!(wrapped.epp_ctx.timeout_ms, c.timeout_ms);
}

fn action_name(a: &PollAction) -> &'static str {
    match a {
        PollAction::TearDown => "tear-down",
        PollAction::FinalizeTimeout => "timeout",
        PollAction::Deliver(_) => "deliver",
        PollAction::Reschedule => "reschedule",
        PollAction::ChannelLost => "channel-lost",
    }
}
