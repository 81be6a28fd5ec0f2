//! The endpoint-picker stage: whether to consult the external processor,
//! and how its answer — value, silence, or failure — leaves the request
//! under fail-open or fail-closed policy.

use vstd::prelude::*;
use vstd::string::*;

use crate::bridge::AsyncEppContext;
use crate::client::EppCallError;
use crate::config::ModuleConfig;
use crate::headers::{
    add_header_in, appended_with, clone_headers, get_header_in, header_lookup, header_present,
    lemma_header_lookup_push,
};
use crate::outcome::{RejectStatus, StageOutcome};
use crate::strutil::seq_eq_ignore_ascii_case;

verus! {

/// The header the stage writes: the configured name, or the stock one when
/// the configuration leaves it empty.
pub open spec fn spec_epp_header_name(conf: ModuleConfig) -> Seq<char> {
    if conf.epp_header_name@.len() == 0 {
        "X-Inference-Upstream"@
    } else {
        conf.epp_header_name@
    }
}

/// The upstream-header name in force.
pub fn epp_header_name(conf: &ModuleConfig) -> (r: String)
    ensures
        r@ == spec_epp_header_name(*conf),
{
    if conf.epp_header_name.as_str().is_empty() {
        String::from_str("X-Inference-Upstream")
    } else {
        conf.epp_header_name.clone()
    }
}

/// The stage calls out exactly when it is enabled, an endpoint is
/// configured and non-empty, and the upstream header is still absent.
pub open spec fn spec_epp_should_call(hs: Seq<(String, String)>, conf: ModuleConfig) -> bool {
    &&& conf.epp_enable
    &&& match conf.epp_endpoint {
        Some(e) => e@.len() > 0,
        None => false,
    }
    &&& !header_present(hs, spec_epp_header_name(conf))
}

/// The status a fail-closed rejection carries: a timeout keeps its own
/// status class; a transport or protocol failure maps to the gateway-error
/// class. The two are never conflated.
pub open spec fn spec_epp_reject(e: EppCallError) -> RejectStatus {
    match e {
        EppCallError::Timeout => RejectStatus::GatewayTimeout,
        EppCallError::Transport => RejectStatus::BadGateway,
        EppCallError::Protocol => RejectStatus::BadGateway,
    }
}

/// The configured default is written under `name` when one is configured
/// and `name` is still absent; otherwise the headers stay as they are.
pub open spec fn spec_default_applied(
    new_hs: Seq<(String, String)>,
    old_hs: Seq<(String, String)>,
    default_value: Option<String>,
    name: Seq<char>,
) -> bool {
    match default_value {
        Some(d) => if !header_present(old_hs, name) {
            appended_with(new_hs, old_hs, name, d@)
        } else {
            new_hs == old_hs
        },
        None => new_hs == old_hs,
    }
}

/// How the stage leaves the request for each answer of the dispatched call:
/// a value is recorded under the upstream header; silence or failure falls
/// back to the default and continues under fail-open, and rejects —
/// timeouts with the timeout status, everything else with the gateway
/// status, silence with the gateway status too — under fail-closed. No
/// default is ever applied on the fail-closed path.
pub open spec fn epp_result_rel(
    old_hs: Seq<(String, String)>,
    new_hs: Seq<(String, String)>,
    r: StageOutcome,
    conf: ModuleConfig,
    result: Result<Option<Seq<char>>, EppCallError>,
) -> bool {
    match result {
        Ok(Some(v)) => r == StageOutcome::Continue && appended_with(
            new_hs,
            old_hs,
            spec_epp_header_name(conf),
            v,
        ),
        Ok(None) => if conf.epp_failure_mode_allow {
            r == StageOutcome::Continue && spec_default_applied(
                new_hs,
                old_hs,
                conf.default_upstream,
                spec_epp_header_name(conf),
            )
        } else {
            r == StageOutcome::Reject(RejectStatus::BadGateway) && new_hs == old_hs
        },
        Err(e) => if conf.epp_failure_mode_allow {
            r == StageOutcome::Continue && spec_default_applied(
                new_hs,
                old_hs,
                conf.default_upstream,
                spec_epp_header_name(conf),
            )
        } else {
            r == StageOutcome::Reject(spec_epp_reject(e)) && new_hs == old_hs
        },
    }
}

/// The whole stage: skipped — headers untouched, request proceeding — when
/// it would not call out, else `epp_result_rel` on the call's answer.
pub open spec fn epp_stage_rel(
    old_hs: Seq<(String, String)>,
    new_hs: Seq<(String, String)>,
    r: StageOutcome,
    conf: ModuleConfig,
    result: Result<Option<Seq<char>>, EppCallError>,
) -> bool {
    if !spec_epp_should_call(old_hs, conf) {
        new_hs == old_hs && r == StageOutcome::Continue
    } else {
        epp_result_rel(old_hs, new_hs, r, conf, result)
    }
}

/// The call's answer, seen at the level the relations speak: the value's
/// characters, silence, or the failure class.
pub open spec fn spec_epp_result_view(r: Result<Option<String>, EppCallError>) -> Result<
    Option<Seq<char>>,
    EppCallError,
> {
    match r {
        Ok(Some(v)) => Ok(Some(v@)),
        Ok(None) => Ok(None),
        Err(e) => Err(e),
    }
}

/// Write the configured default under `name` unless one is missing or the
/// header is already set.
pub fn set_default_upstream(
    headers: &mut Vec<(String, String)>,
    conf: &ModuleConfig,
    name: &String,
)
    ensures
        spec_default_applied(final(headers)@, old(headers)@, conf.default_upstream, name@),
{
    let ghost orig = headers@;
    match &conf.default_upstream {
        Some(d) => {
            if get_header_in(headers, name.as_str()).is_none() {
                add_header_in(headers, name.clone(), d.clone());
                proof {
                    assert(headers@.subrange(0, orig.len() as int) =~= orig);
                }
            }
        },
        None => {},
    }
}

/// Consults the external processor for the upstream that should serve a
/// request, and applies its answer to the request's headers.
pub struct EppProcessor;

impl EppProcessor {
    /// Open the stage for one request: when it is enabled, an endpoint is
    /// configured and the upstream header is absent, hand back everything
    /// the dispatched call needs — endpoint, header name, budget, a
    /// snapshot of the headers, transport settings and failure policy.
    /// Decline otherwise; a present header is a decision already made.
    pub fn process_request(headers: &Vec<(String, String)>, conf: &ModuleConfig) -> (r: Option<
        AsyncEppContext,
    >)
        ensures
            r is Some <==> spec_epp_should_call(headers@, *conf),
            match r {
                Some(ctx) => {
                    &&& ctx.endpoint@ == conf.epp_endpoint->0@
                    &&& ctx.upstream_header@ == spec_epp_header_name(*conf)
                    &&& ctx.timeout_ms == conf.epp_timeout_ms
                    &&& ctx.headers@ == headers@
                    &&& ctx.use_tls == conf.epp_tls
                    &&& ctx.ca_file == conf.epp_ca_file
                    &&& ctx.failure_mode_allow == conf.epp_failure_mode_allow
                    &&& ctx.default_upstream == conf.default_upstream
                },
                None => true,
            },
    {
        if !conf.epp_enable {
            return None;
        }
        let endpoint = match &conf.epp_endpoint {
            Some(e) => {
                if e.as_str().is_empty() {
                    return None;
                }
                e.clone()
            },
            None => {
                return None;
            },
        };
        let name = epp_header_name(conf);
        if get_header_in(headers, name.as_str()).is_some() {
            return None;
        }
        Some(
            AsyncEppContext {
                endpoint,
                upstream_header: name,
                timeout_ms: conf.epp_timeout_ms,
                headers: clone_headers(headers),
                use_tls: conf.epp_tls,
                ca_file: crate::config::clone_opt_string(&conf.epp_ca_file),
                failure_mode_allow: conf.epp_failure_mode_allow,
                default_upstream: crate::config::clone_opt_string(&conf.default_upstream),
            },
        )
    }

    /// Close the stage with the dispatched call's answer: record a value
    /// under the upstream header; on silence or failure, continue with the
    /// default under fail-open, reject under fail-closed — a timeout with
    /// the timeout status, anything else with the gateway status.
    pub fn apply_result(
        headers: &mut Vec<(String, String)>,
        conf: &ModuleConfig,
        result: Result<Option<String>, EppCallError>,
    ) -> (r: StageOutcome)
        ensures
            epp_result_rel(
                old(headers)@,
                final(headers)@,
                r,
                *conf,
                spec_epp_result_view(result),
            ),
    {
        let ghost orig = headers@;
        let name = epp_header_name(conf);
        match result {
            Ok(Some(value)) => {
                add_header_in(headers, name, value);
                proof {
                    assert(headers@.subrange(0, orig.len() as int) =~= orig);
                }
                StageOutcome::Continue
            },
            Ok(None) => {
                if conf.epp_failure_mode_allow {
                    set_default_upstream(headers, conf, &name);
                    StageOutcome::Continue
                } else {
                    StageOutcome::Reject(RejectStatus::BadGateway)
                }
            },
            Err(e) => {
                if conf.epp_failure_mode_allow {
                    set_default_upstream(headers, conf, &name);
                    StageOutcome::Continue
                } else {
                    match e {
                        EppCallError::Timeout => StageOutcome::Reject(
                            RejectStatus::GatewayTimeout,
                        ),
                        _ => StageOutcome::Reject(RejectStatus::BadGateway),
                    }
                }
            },
        }
    }
}

/// What the host's upstream variable evaluates to: the upstream header's
/// value when one is set, else the configured default, else nothing.
pub fn inference_upstream_value(headers: &Vec<(String, String)>, conf: &ModuleConfig) -> (r:
    Option<String>)
    ensures
        match r {
            Some(v) => match header_lookup(headers@, spec_epp_header_name(*conf)) {
                Some(h) => v@ == h,
                None => conf.default_upstream matches Some(d) && v@ == d@,
            },
            None => header_lookup(headers@, spec_epp_header_name(*conf)) is None
                && conf.default_upstream is None,
        },
{
    let name = epp_header_name(conf);
    match get_header_in(headers, name.as_str()) {
        Some(v) => Some(v),
        None => crate::config::clone_opt_string(&conf.default_upstream),
    }
}

/// Idempotence of the stage: with the upstream header already present, the
/// stage makes no call and the request's headers stay as they are.
pub proof fn lemma_epp_idempotent(hs: Seq<(String, String)>, conf: ModuleConfig)
    requires
        header_present(hs, spec_epp_header_name(conf)),
    ensures
        !spec_epp_should_call(hs, conf),
        forall|new_hs: Seq<(String, String)>, r: StageOutcome, result:
            Result<Option<Seq<char>>, EppCallError>|
            #[trigger] epp_stage_rel(hs, new_hs, r, conf, result) ==> new_hs == hs && r
                == StageOutcome::Continue,
{
}

/// A timeout is its own outcome: under fail-closed policy it rejects with
/// the timeout status, while transport and protocol failures reject with
/// the gateway status, and silence — the no-match outcome — is never given
/// either failure's status on the fail-open path nor the timeout status at
/// all.
pub proof fn lemma_timeout_distinct(
    old_hs: Seq<(String, String)>,
    new_hs: Seq<(String, String)>,
    r: StageOutcome,
    conf: ModuleConfig,
)
    requires
        !conf.epp_failure_mode_allow,
    ensures
        spec_epp_reject(EppCallError::Timeout) != spec_epp_reject(EppCallError::Transport),
        spec_epp_reject(EppCallError::Timeout) != spec_epp_reject(EppCallError::Protocol),
        epp_result_rel(old_hs, new_hs, r, conf, Err(EppCallError::Timeout)) ==> r
            == StageOutcome::Reject(RejectStatus::GatewayTimeout),
        epp_result_rel(old_hs, new_hs, r, conf, Err(EppCallError::Transport)) ==> r
            == StageOutcome::Reject(RejectStatus::BadGateway),
        epp_result_rel(old_hs, new_hs, r, conf, Ok(None)) ==> r != StageOutcome::Reject(
            RejectStatus::GatewayTimeout,
        ),
{
}

/// Fail-open substitution: when a stage failure is allowed through and a
/// default is configured for a still-absent header, the header afterwards
/// reads exactly that default; and with fail-open unset the relation admits
/// only a rejection that leaves the headers unchanged.
pub proof fn lemma_fail_open_substitution(
    old_hs: Seq<(String, String)>,
    new_hs: Seq<(String, String)>,
    r: StageOutcome,
    conf: ModuleConfig,
    e: EppCallError,
)
    requires
        epp_result_rel(old_hs, new_hs, r, conf, Err(e)),
        conf.default_upstream is Some,
        !header_present(old_hs, spec_epp_header_name(conf)),
    ensures
        conf.epp_failure_mode_allow ==> r == StageOutcome::Continue && header_lookup(
            new_hs,
            spec_epp_header_name(conf),
        ) == Some(conf.default_upstream->0@),
        !conf.epp_failure_mode_allow ==> r == StageOutcome::Reject(spec_epp_reject(e)) && new_hs
            == old_hs,
{
    if conf.epp_failure_mode_allow {
        let name = spec_epp_header_name(conf);
        let d = conf.default_upstream->0;
        assert(appended_with(new_hs, old_hs, name, d@));
        assert(new_hs =~= old_hs.push(new_hs.last()));
        lemma_header_lookup_push(old_hs, new_hs.last().0, new_hs.last().1, name);
        lemma_eq_ignore_case_reflexive(new_hs.last().0@, name);
    }
}

/// ASCII-case-insensitive equality holds between a sequence and itself.
proof fn lemma_eq_ignore_case_reflexive(a: Seq<char>, b: Seq<char>)
    requires
        a == b,
    ensures
        seq_eq_ignore_ascii_case(a, b),
{
}

} // verus!
