//! The per-request pipeline: the body-based-routing stage, then the
//! endpoint-picker stage, each optional, strictly in that order — the
//! endpoint picker always sees the headers as body-based routing left them.
//! A rejection ends the request at once; the later stage never runs.

use vstd::prelude::*;

use crate::bbr::{bbr_stage_rel, BbrAction, BbrProcessor};
use crate::body::collect_segments;
use crate::client::EppCallError;
use crate::config::ModuleConfig;
use crate::epp::{epp_stage_rel, spec_epp_result_view, EppProcessor};
use crate::outcome::StageOutcome;

verus! {

/// Run one request through both stages. The host supplies what it alone
/// can: the body's delivered segments, and what the dispatched
/// endpoint-picker call answered (consulted only when the stage decides to
/// call). The request's headers leave as the two stage relations say, with
/// the endpoint picker reading the header set body-based routing produced.
pub fn run_request(
    headers: &mut Vec<(String, String)>,
    conf: &ModuleConfig,
    segments: &Vec<Vec<u8>>,
    epp_result: Result<Option<String>, EppCallError>,
) -> (r: StageOutcome)
    ensures
        exists|mid: Seq<(String, String)>, s1: StageOutcome|
            {
                &&& #[trigger] bbr_stage_rel(
                    old(headers)@,
                    mid,
                    s1,
                    *conf,
                    segments.deep_view(),
                )
                &&& s1 is Reject ==> final(headers)@ == mid && r == s1
                &&& s1 is Continue ==> epp_stage_rel(
                    mid,
                    final(headers)@,
                    r,
                    *conf,
                    spec_epp_result_view(epp_result),
                )
            },
{
    let action = BbrProcessor::process_request(headers, conf);
    let s1 = match action {
        BbrAction::ReadBody => {
            let collected = collect_segments(segments, conf.max_body_size);
            BbrProcessor::on_body_collected(headers, conf, collected)
        },
        BbrAction::Declined => StageOutcome::Continue,
    };
    let ghost mid = headers@;
    if let StageOutcome::Reject(_) = s1 {
        proof {
            assert(bbr_stage_rel(old(headers)@, mid, s1, *conf, segments.deep_view()));
        }
        return s1;
    }
    let should = EppProcessor::process_request(headers, conf);
    let r = match should {
        Some(_ctx) => EppProcessor::apply_result(headers, conf, epp_result),
        None => StageOutcome::Continue,
    };
    proof {
        assert(bbr_stage_rel(old(headers)@, mid, s1, *conf, segments.deep_view()));
        assert(epp_stage_rel(mid, headers@, r, *conf, spec_epp_result_view(epp_result)));
    }
    r
}

} // verus!
