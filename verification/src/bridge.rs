//! The bridge between the host's cooperative thread and the task pool that
//! runs the processor call: the per-call context, the watcher that holds the
//! result channel, and the poll rule that resolves each call exactly once —
//! by cancellation, by timeout, or by its result, whichever comes first.

use vstd::prelude::*;
use vstd::string::*;

use crate::client::EppCallError;
use crate::headers::appended_with;
use crate::outcome::{RejectStatus, StageOutcome};
use crate::epp::spec_default_applied;

verus! {

/// Everything one dispatched call needs, cloned across the thread boundary:
/// the spawned task and the watcher each hold their own copy.
#[derive(Debug, Clone)]
pub struct AsyncEppContext {
    /// Address of the external processor.
    pub endpoint: String,
    /// Header that receives the chosen upstream.
    pub upstream_header: String,
    /// Budget for the call, in milliseconds, measured from dispatch.
    pub timeout_ms: u64,
    /// Snapshot of the request headers forwarded to the processor.
    pub headers: Vec<(String, String)>,
    /// Secure the processor connection.
    pub use_tls: bool,
    /// Certificate-authority file for the secured connection.
    pub ca_file: Option<String>,
    /// Fail open (`true`) or fail closed (`false`) on call failure.
    pub failure_mode_allow: bool,
    /// Fallback upstream recorded when the call fails open.
    pub default_upstream: Option<String>,
}

/// Carries the call context through the host's body-read callback.
pub struct BodyReadContext {
    /// The dispatched call's context.
    pub epp_ctx: AsyncEppContext,
}

impl BodyReadContext {
    /// Wrap a call context for the body-read callback.
    pub fn new(epp_ctx: AsyncEppContext) -> (r: Self)
        ensures
            r.epp_ctx == epp_ctx,
    {
        BodyReadContext { epp_ctx }
    }
}

/// The worker's end of the result channel. It offers one operation —
/// sending the answer — so worker code can never reach back into any other
/// host state.
#[verifier::external_body]
pub struct ResultSender {
    tx: tokio::sync::oneshot::Sender<Result<String, String>>,
}

/// The host's end of the result channel. It offers one operation — polling
/// for the answer — and is consumed with the watcher that owns it.
#[verifier::external_body]
pub struct ResultReceiver {
    rx: tokio::sync::oneshot::Receiver<Result<String, String>>,
}

/// Relies on `tokio::sync::oneshot::channel`: a fresh single-producer,
/// single-consumer, single-use channel pair. Nothing is promised of the
/// values beyond what polling the receiver reports.
#[verifier::external_body]
pub fn result_channel() -> (ResultSender, ResultReceiver) {
    let (tx, rx) = tokio::sync::oneshot::channel();
    (ResultSender { tx }, ResultReceiver { rx })
}

impl ResultSender {
    /// Relies on `tokio::sync::oneshot::Sender::send`: hands the answer to
    /// the receiver, or drops it silently when the receiver is gone — an
    /// orphaned send is a no-op. Consumes the sender: a worker reports at
    /// most once.
    #[verifier::external_body]
    pub fn send(self, value: Result<String, String>) {
        let _ = self.tx.send(value);
    }
}

/// What one look at the result channel showed.
pub enum ChannelPoll {
    /// The worker's answer arrived.
    Ready(Result<String, String>),
    /// No answer yet; the channel is still open.
    Pending,
    /// The channel closed without an answer: the worker is gone.
    Lost,
}

/// Relies on `tokio::sync::oneshot::Receiver::try_recv`: it hands the value
/// over when the worker has sent one, else reports the channel empty or
/// closed. Which of the three arrives depends on the worker's progress, so
/// nothing is promised of the outcome.
#[verifier::external_body]
fn poll_channel(rx: &mut ResultReceiver) -> (r: ChannelPoll) {
    match rx.rx.try_recv() {
        Ok(v) => ChannelPoll::Ready(v),
        Err(tokio::sync::oneshot::error::TryRecvError::Empty) => ChannelPoll::Pending,
        Err(tokio::sync::oneshot::error::TryRecvError::Closed) => ChannelPoll::Lost,
    }
}

/// Relies on `std::time::SystemTime::now`: a clock reading, of which
/// nothing is promised.
#[verifier::external_body]
pub(crate) fn current_time_ms() -> u64 {
    match std::time::SystemTime::now().duration_since(std::time::UNIX_EPOCH) {
        Ok(d) => d.as_millis() as u64,
        Err(_) => 0,
    }
}

/// The call's budget is spent at `now_ms`: more than `timeout_ms`
/// milliseconds have passed since `start_ms`. A clock that moved backwards
/// counts as no time passed.
pub open spec fn spec_timed_out(now_ms: u64, start_ms: u64, timeout_ms: u64) -> bool {
    if now_ms >= start_ms {
        now_ms - start_ms > timeout_ms
    } else {
        false
    }
}

/// What the host does with an outstanding call on one poll tick. Each
/// variant but `Reschedule` resolves the call, and a resolving poll is the
/// watcher's last: the host tears it down before acting.
pub enum PollAction {
    /// The owning request is gone: tear the watcher down and do nothing
    /// else.
    TearDown,
    /// The budget is spent: resolve as a timeout. A result that arrives
    /// later is discarded with the watcher, never applied.
    FinalizeTimeout,
    /// The worker's answer arrived in time: resolve with it.
    Deliver(Result<String, String>),
    /// Nothing yet: poll again later.
    Reschedule,
    /// The worker is gone without an answer: resolve as a failure.
    ChannelLost,
}

/// The poll rule. Liveness of the owning request is checked first — a dead
/// request resolves as cancellation whatever else holds; the time budget is
/// checked second — once it is spent the call resolves as a timeout even if
/// an answer is already waiting; only then does the channel's state count.
pub open spec fn spec_poll_decision(
    request_alive: bool,
    timed_out: bool,
    ch: ChannelPoll,
) -> PollAction {
    if !request_alive {
        PollAction::TearDown
    } else if timed_out {
        PollAction::FinalizeTimeout
    } else {
        match ch {
            ChannelPoll::Ready(res) => PollAction::Deliver(res),
            ChannelPoll::Pending => PollAction::Reschedule,
            ChannelPoll::Lost => PollAction::ChannelLost,
        }
    }
}

/// One poll tick's decision, from what the host observed.
pub fn poll_decision(request_alive: bool, timed_out: bool, ch: ChannelPoll) -> (r: PollAction)
    ensures
        r == spec_poll_decision(request_alive, timed_out, ch),
{
    if !request_alive {
        PollAction::TearDown
    } else if timed_out {
        PollAction::FinalizeTimeout
    } else {
        match ch {
            ChannelPoll::Ready(res) => PollAction::Deliver(res),
            ChannelPoll::Pending => PollAction::Reschedule,
            ChannelPoll::Lost => PollAction::ChannelLost,
        }
    }
}

/// Watches one outstanding call: the single-use result channel, the call's
/// context, and the dispatch time the budget is measured from. It holds no
/// reference to the suspended request — the host reconfirms the request's
/// liveness and passes it to each poll.
pub struct ResultWatcher {
    /// Receives the worker's answer, once.
    pub receiver: ResultReceiver,
    /// The dispatched call's context.
    pub ctx: AsyncEppContext,
    /// Dispatch time, in milliseconds.
    pub start_time_ms: u64,
}

impl ResultWatcher {
    /// Watch a freshly dispatched call, its budget measured from now.
    pub fn new(receiver: ResultReceiver, ctx: AsyncEppContext) -> (r: Self)
        ensures
            r.receiver == receiver,
            r.ctx == ctx,
    {
        let start_time_ms = current_time_ms();
        ResultWatcher { receiver, ctx, start_time_ms }
    }

    /// Is the budget spent at the given clock reading?
    pub fn timed_out_at(&self, now_ms: u64) -> (r: bool)
        ensures
            r == spec_timed_out(now_ms, self.start_time_ms, self.ctx.timeout_ms),
    {
        let elapsed = if now_ms >= self.start_time_ms {
            now_ms - self.start_time_ms
        } else {
            0
        };
        elapsed > self.ctx.timeout_ms
    }

    /// Is the budget spent now? Reads the clock, so nothing can be promised
    /// of the answer; `timed_out_at` carries the exact rule.
    pub fn is_timed_out(&self) -> bool {
        let now = current_time_ms();
        self.timed_out_at(now)
    }

    /// One poll tick: liveness first, the budget second, the channel last.
    /// The channel is not even looked at once the request is gone or the
    /// budget spent, so a late answer can never be delivered.
    pub fn poll(&mut self, request_alive: bool, now_ms: u64) -> (r: PollAction)
        ensures
            final(self).ctx == old(self).ctx,
            final(self).start_time_ms == old(self).start_time_ms,
            !request_alive ==> r == PollAction::TearDown,
            request_alive && spec_timed_out(
                now_ms,
                old(self).start_time_ms,
                old(self).ctx.timeout_ms,
            ) ==> r == PollAction::FinalizeTimeout,
            request_alive && !spec_timed_out(
                now_ms,
                old(self).start_time_ms,
                old(self).ctx.timeout_ms,
            ) ==> (r matches PollAction::Deliver(_) || r == PollAction::Reschedule || r
                == PollAction::ChannelLost),
    {
        if !request_alive {
            return PollAction::TearDown;
        }
        if self.timed_out_at(now_ms) {
            return PollAction::FinalizeTimeout;
        }
        let ch = poll_channel(&mut self.receiver);
        poll_decision(true, false, ch)
    }
}

/// How the spawned worker reports the call home: a value is the answer; an
/// exchange that closed without one counts as a failure to pick, and each
/// failure class keeps a message of its own.
pub fn epp_task_outcome(result: Result<Option<String>, EppCallError>) -> (r: Result<
    String,
    String,
>)
    ensures
        match result {
            Ok(Some(v)) => r == Ok::<String, String>(v),
            Ok(None) => r matches Err(m) && m@ == "EPP returned no upstream"@,
            Err(EppCallError::Transport) => r matches Err(m) && m@ == "EPP transport error"@,
            Err(EppCallError::Protocol) => r matches Err(m) && m@ == "EPP protocol error"@,
            Err(EppCallError::Timeout) => r matches Err(m) && m@ == "EPP call timed out"@,
        },
{
    match result {
        Ok(Some(v)) => Ok(v),
        Ok(None) => Err(String::from_str("EPP returned no upstream")),
        Err(EppCallError::Transport) => Err(
            String::from_str("EPP transport error"),
        ),
        Err(EppCallError::Protocol) => Err(
            String::from_str("EPP protocol error"),
        ),
        Err(EppCallError::Timeout) => Err(
            String::from_str("EPP call timed out"),
        ),
    }
}

/// Resolve a failed or silent call against the policy: fail-open falls back
/// to the configured default and lets the request proceed; fail-closed
/// rejects it with the given status and touches nothing.
pub fn handle_epp_failure(
    headers: &mut Vec<(String, String)>,
    ctx: &AsyncEppContext,
    status: RejectStatus,
) -> (r: StageOutcome)
    ensures
        ctx.failure_mode_allow ==> r == StageOutcome::Continue && spec_default_applied(
            final(headers)@,
            old(headers)@,
            ctx.default_upstream,
            ctx.upstream_header@,
        ),
        !ctx.failure_mode_allow ==> r == StageOutcome::Reject(status) && final(headers)@ == old(
            headers,
        )@,
{
    let ghost orig = headers@;
    if ctx.failure_mode_allow {
        match &ctx.default_upstream {
            Some(d) => {
                if crate::headers::get_header_in(headers, ctx.upstream_header.as_str()).is_none() {
                    crate::headers::add_header_in(
                        headers,
                        ctx.upstream_header.clone(),
                        d.clone(),
                    );
                    proof {
                        assert(headers@.subrange(0, orig.len() as int) =~= orig);
                    }
                }
            },
            None => {},
        }
        StageOutcome::Continue
    } else {
        StageOutcome::Reject(status)
    }
}

/// Resolve a delivered answer: a value is recorded under the upstream
/// header and the request proceeds; a reported failure goes through the
/// failure policy with the gateway status.
pub fn process_epp_result(
    headers: &mut Vec<(String, String)>,
    ctx: &AsyncEppContext,
    result: Result<String, String>,
) -> (r: StageOutcome)
    ensures
        result matches Ok(v) ==> r == StageOutcome::Continue && appended_with(
            final(headers)@,
            old(headers)@,
            ctx.upstream_header@,
            v@,
        ),
        result is Err && ctx.failure_mode_allow ==> r == StageOutcome::Continue
            && spec_default_applied(
            final(headers)@,
            old(headers)@,
            ctx.default_upstream,
            ctx.upstream_header@,
        ),
        result is Err && !ctx.failure_mode_allow ==> r == StageOutcome::Reject(
            RejectStatus::BadGateway,
        ) && final(headers)@ == old(headers)@,
{
    let ghost orig = headers@;
    match result {
        Ok(v) => {
            crate::headers::add_header_in(headers, ctx.upstream_header.clone(), v);
            proof {
                assert(headers@.subrange(0, orig.len() as int) =~= orig);
            }
            StageOutcome::Continue
        },
        Err(_) => handle_epp_failure(headers, ctx, RejectStatus::BadGateway),
    }
}

/// What one poll tick leaves of the call: still outstanding, torn down with
/// the request, or settled with a stage verdict. Timeouts settle with the
/// timeout status, a lost worker with the gateway status, an answer as
/// `process_epp_result` says — each through the failure policy.
pub enum PollResolution {
    /// The call is still outstanding; poll again.
    KeepWaiting,
    /// The owning request is gone; nothing was touched.
    Abandoned,
    /// The call resolved with this verdict.
    Settled(StageOutcome),
}

/// Act on one poll tick's decision. Only a `Deliver` action ever writes the
/// worker's value; timeout and loss go through the failure policy.
pub fn resolve_poll(
    headers: &mut Vec<(String, String)>,
    ctx: &AsyncEppContext,
    action: PollAction,
) -> (r: PollResolution)
    ensures
        match action {
            PollAction::TearDown => r is Abandoned && final(headers)@ == old(headers)@,
            PollAction::Reschedule => r is KeepWaiting && final(headers)@ == old(headers)@,
            PollAction::FinalizeTimeout => r matches PollResolution::Settled(out) && ({
                &&& ctx.failure_mode_allow ==> out == StageOutcome::Continue
                    && spec_default_applied(
                    final(headers)@,
                    old(headers)@,
                    ctx.default_upstream,
                    ctx.upstream_header@,
                )
                &&& !ctx.failure_mode_allow ==> out == StageOutcome::Reject(
                    RejectStatus::GatewayTimeout,
                ) && final(headers)@ == old(headers)@
            }),
            PollAction::ChannelLost => r matches PollResolution::Settled(out) && ({
                &&& ctx.failure_mode_allow ==> out == StageOutcome::Continue
                    && spec_default_applied(
                    final(headers)@,
                    old(headers)@,
                    ctx.default_upstream,
                    ctx.upstream_header@,
                )
                &&& !ctx.failure_mode_allow ==> out == StageOutcome::Reject(
                    RejectStatus::BadGateway,
                ) && final(headers)@ == old(headers)@
            }),
            PollAction::Deliver(res) => r matches PollResolution::Settled(out) && ({
                &&& res matches Ok(v) ==> out == StageOutcome::Continue && appended_with(
                    final(headers)@,
                    old(headers)@,
                    ctx.upstream_header@,
                    v@,
                )
                &&& res is Err && ctx.failure_mode_allow ==> out == StageOutcome::Continue
                    && spec_default_applied(
                    final(headers)@,
                    old(headers)@,
                    ctx.default_upstream,
                    ctx.upstream_header@,
                )
                &&& res is Err && !ctx.failure_mode_allow ==> out == StageOutcome::Reject(
                    RejectStatus::BadGateway,
                ) && final(headers)@ == old(headers)@
            }),
        },
{
    match action {
        PollAction::TearDown => PollResolution::Abandoned,
        PollAction::Reschedule => PollResolution::KeepWaiting,
        PollAction::FinalizeTimeout => PollResolution::Settled(
            handle_epp_failure(headers, ctx, RejectStatus::GatewayTimeout),
        ),
        PollAction::ChannelLost => PollResolution::Settled(
            handle_epp_failure(headers, ctx, RejectStatus::BadGateway),
        ),
        PollAction::Deliver(res) => PollResolution::Settled(
            process_epp_result(headers, ctx, res),
        ),
    }
}

/// The poll rule resolves each call exactly once: every action but
/// `Reschedule` is terminal, cancellation outranks the timeout, and the
/// timeout outranks a waiting result — so a result arriving after the
/// budget is spent is never delivered.
pub proof fn lemma_poll_resolves_once(request_alive: bool, timed_out: bool, ch: ChannelPoll)
    ensures
        !request_alive ==> spec_poll_decision(request_alive, timed_out, ch)
            == PollAction::TearDown,
        request_alive && timed_out ==> spec_poll_decision(request_alive, timed_out, ch)
            == PollAction::FinalizeTimeout,
        forall|res: Result<String, String>|
            spec_poll_decision(request_alive, timed_out, ch) == PollAction::Deliver(res)
                ==> request_alive && !timed_out && ch == ChannelPoll::Ready(res),
{
}

} // verus!
