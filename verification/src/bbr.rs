//! Body-based routing: decide whether to buffer the body, and turn the
//! collected body into a model header on the request.

use vstd::prelude::*;
use vstd::string::*;

use crate::body::{spec_collect, BodyTooLarge};
use crate::config::ModuleConfig;
use crate::headers::{add_header_in, appended_with, get_header_in, header_present};
use crate::model_extractor::{extract_model_from_body, model_field};
use crate::outcome::{RejectStatus, StageOutcome};

verus! {

/// The header the stage writes: the configured name, or the stock one when
/// the configuration leaves it empty.
pub open spec fn spec_bbr_header_name(conf: ModuleConfig) -> Seq<char> {
    if conf.bbr_header_name@.len() == 0 {
        "X-Gateway-Model-Name"@
    } else {
        conf.bbr_header_name@
    }
}

/// The model-header name in force.
pub fn bbr_header_name(conf: &ModuleConfig) -> (r: String)
    ensures
        r@ == spec_bbr_header_name(*conf),
{
    if conf.bbr_header_name.as_str().is_empty() {
        String::from_str("X-Gateway-Model-Name")
    } else {
        conf.bbr_header_name.clone()
    }
}

/// What the stage does with a fresh request.
#[derive(Clone, Copy, Debug, PartialEq, Eq, Structural)]
pub enum BbrAction {
    /// The stage does no work: it is disabled, or the header is already
    /// present and the decision is taken as made.
    Declined,
    /// The host is to buffer the request body and hand it back.
    ReadBody,
}

/// The stage reads the body exactly when it is enabled and the model header
/// is absent.
pub open spec fn spec_bbr_action(hs: Seq<(String, String)>, conf: ModuleConfig) -> BbrAction {
    if conf.bbr_enable && !header_present(hs, spec_bbr_header_name(conf)) {
        BbrAction::ReadBody
    } else {
        BbrAction::Declined
    }
}

/// The value the stage records: the model the body names, or the configured
/// default when it names none.
pub open spec fn spec_bbr_chosen(model: Option<Seq<char>>, default_model: Seq<char>) -> Seq<char> {
    match model {
        Some(m) => m,
        None => default_model,
    }
}

/// How the stage leaves the request once the body collection's result is
/// in: a collection refused for size rejects the request with the size
/// status, headers untouched; otherwise the model header is appended,
/// reading the model the body names or the configured default when it
/// names none — an empty body names none, so it too gets the default.
pub open spec fn bbr_apply_rel(
    old_hs: Seq<(String, String)>,
    new_hs: Seq<(String, String)>,
    r: StageOutcome,
    conf: ModuleConfig,
    collected: Option<Seq<u8>>,
) -> bool {
    match collected {
        None => r == StageOutcome::Reject(RejectStatus::PayloadTooLarge) && new_hs == old_hs,
        Some(b) => r == StageOutcome::Continue && appended_with(
            new_hs,
            old_hs,
            spec_bbr_header_name(conf),
            spec_bbr_chosen(model_field(b), conf.bbr_default_model@),
        ),
    }
}

/// The stage end to end: skipped when it is disabled or pre-decided, else
/// `bbr_apply_rel` on the collection of `segs` under the configured
/// ceiling.
pub open spec fn bbr_stage_rel(
    old_hs: Seq<(String, String)>,
    new_hs: Seq<(String, String)>,
    r: StageOutcome,
    conf: ModuleConfig,
    segs: Seq<Seq<u8>>,
) -> bool {
    if spec_bbr_action(old_hs, conf) is Declined {
        new_hs == old_hs && r == StageOutcome::Continue
    } else {
        bbr_apply_rel(old_hs, new_hs, r, conf, spec_collect(segs, conf.max_body_size as int))
    }
}

/// The collection result, seen as the bytes it produced or nothing.
pub open spec fn spec_collected_view(c: Result<Vec<u8>, BodyTooLarge>) -> Option<Seq<u8>> {
    match c {
        Ok(b) => Some(b@),
        Err(_) => None,
    }
}

/// Body-based routing: reads a model name out of the buffered request body
/// and records it as a request header.
pub struct BbrProcessor;

impl BbrProcessor {
    /// Open the stage for one request: ask the host to buffer the body, or
    /// decline when the stage is disabled or the model header is already
    /// present — a present header is a decision already made, and the stage
    /// touches nothing.
    pub fn process_request(headers: &Vec<(String, String)>, conf: &ModuleConfig) -> (r: BbrAction)
        ensures
            r == spec_bbr_action(headers@, *conf),
    {
        if !conf.bbr_enable {
            return BbrAction::Declined;
        }
        let name = bbr_header_name(conf);
        if get_header_in(headers, name.as_str()).is_some() {
            return BbrAction::Declined;
        }
        BbrAction::ReadBody
    }

    /// Close the stage once the host has collected the body: reject a body
    /// the collector refused, and otherwise record the extracted model —
    /// or the configured default, when the body names none — under the
    /// model header.
    pub fn on_body_collected(
        headers: &mut Vec<(String, String)>,
        conf: &ModuleConfig,
        collected: Result<Vec<u8>, BodyTooLarge>,
    ) -> (r: StageOutcome)
        ensures
            bbr_apply_rel(old(headers)@, final(headers)@, r, *conf, spec_collected_view(collected)),
    {
        let body = match collected {
            Ok(b) => b,
            Err(_) => {
                return StageOutcome::Reject(RejectStatus::PayloadTooLarge);
            },
        };
        let ghost orig = headers@;
        let model = extract_model_from_body(body.as_slice());
        let value = bbr_chosen_value(model, &conf.bbr_default_model);
        let name = bbr_header_name(conf);
        add_header_in(headers, name, value);
        proof {
            assert(headers@.subrange(0, orig.len() as int) =~= orig);
        }
        StageOutcome::Continue
    }
}

/// The value to record for an extraction result: the model when the body
/// named one, the configured default otherwise.
pub fn bbr_chosen_value(model: Option<String>, default_model: &String) -> (r: String)
    ensures
        r@ == spec_bbr_chosen(
            match model {
                Some(m) => Some(m@),
                None => None,
            },
            default_model@,
        ),
{
    match model {
        Some(m) => m,
        None => default_model.clone(),
    }
}

/// Idempotence of the stage: with the model header already present, the
/// stage declines — no body is read and, whatever body the host might have
/// delivered, the request's headers stay as they are.
pub proof fn lemma_bbr_idempotent(hs: Seq<(String, String)>, conf: ModuleConfig)
    requires
        header_present(hs, spec_bbr_header_name(conf)),
    ensures
        spec_bbr_action(hs, conf) is Declined,
        forall|new_hs: Seq<(String, String)>, r: StageOutcome, segs: Seq<Seq<u8>>|
            #[trigger] bbr_stage_rel(hs, new_hs, r, conf, segs) ==> new_hs == hs && r
                == StageOutcome::Continue,
{
}

} // verus!
