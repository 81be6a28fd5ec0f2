//! The external-processor message shapes the client exchanges, and the rule
//! that reads a chosen header value out of a response's header mutation.

use vstd::prelude::*;
use vstd::string::*;

use crate::strutil::{seq_eq_ignore_ascii_case, utf8_lossy, utf8_lossy_of};

verus! {

/// One header on the wire: a key with a textual and a raw byte value.
pub struct HeaderValue {
    pub key: String,
    pub value: String,
    pub raw_value: Vec<u8>,
}

/// One entry of a mutation's set-list; the header itself is optional on the
/// wire.
pub struct HeaderValueOption {
    pub header: Option<HeaderValue>,
}

/// Headers a processor asks to set or remove on the request.
pub struct HeaderMutation {
    pub set_headers: Vec<HeaderValueOption>,
    pub remove_headers: Vec<String>,
}

/// The wrapper the header- and body-variants nest their mutation under.
pub struct CommonResponse {
    pub header_mutation: Option<HeaderMutation>,
}

/// One response message of the processor stream. Four variants nest their
/// mutation under the common wrapper, the trailer variants carry it
/// directly, and an immediate response carries it as its headers.
pub enum ProcessingResponse {
    RequestHeaders(Option<CommonResponse>),
    ResponseHeaders(Option<CommonResponse>),
    RequestBody(Option<CommonResponse>),
    ResponseBody(Option<CommonResponse>),
    RequestTrailers(Option<HeaderMutation>),
    ResponseTrailers(Option<HeaderMutation>),
    ImmediateResponse(Option<HeaderMutation>),
    Unset,
}

/// What one wire header yields for `target`: its textual value when the key
/// matches up to ASCII case and that value is non-empty, else its raw bytes
/// lossily decoded when they are non-empty, else nothing.
pub open spec fn header_yield(h: HeaderValue, target: Seq<char>) -> Option<Seq<char>> {
    if !seq_eq_ignore_ascii_case(h.key@, target) {
        None
    } else if h.value@.len() > 0 {
        Some(h.value@)
    } else if h.raw_value@.len() > 0 {
        Some(utf8_lossy_of(h.raw_value@))
    } else {
        None
    }
}

/// What one set-list entry yields for `target`.
pub open spec fn entry_yield(e: HeaderValueOption, target: Seq<char>) -> Option<Seq<char>> {
    match e.header {
        Some(h) => header_yield(h, target),
        None => None,
    }
}

/// The value the set-list yields for `target`: the first entry in list order
/// that yields one. An entry whose key matches but whose values are empty
/// yields nothing and does not halt the scan.
pub open spec fn spec_extract(entries: Seq<HeaderValueOption>, target: Seq<char>) -> Option<
    Seq<char>,
>
    decreases entries.len(),
{
    if entries.len() == 0 {
        None
    } else if entry_yield(entries[0], target) is Some {
        entry_yield(entries[0], target)
    } else {
        spec_extract(entries.drop_first(), target)
    }
}

/// The value `mutation`'s set-list yields for `target`.
pub open spec fn spec_extract_mutation(m: HeaderMutation, target: Seq<char>) -> Option<Seq<char>> {
    spec_extract(m.set_headers@, target)
}

/// Scan a mutation's set-list for `target`, ASCII-case-insensitively.
pub fn extract_header_from_mutation(m: &HeaderMutation, target: &str) -> (r: Option<String>)
    ensures
        match r {
            Some(v) => spec_extract_mutation(*m, target@) == Some(v@),
            None => spec_extract_mutation(*m, target@) is None,
        },
{
    let n = m.set_headers.len();
    let mut i: usize = 0;
    proof {
        assert(m.set_headers@.skip(0) =~= m.set_headers@);
    }
    while i < n
        invariant
            n == m.set_headers@.len(),
            i <= n,
            spec_extract(m.set_headers@, target@) == spec_extract(
                m.set_headers@.skip(i as int),
                target@,
            ),
        decreases n - i,
    {
        proof {
            assert(m.set_headers@.skip(i as int)[0] == m.set_headers@[i as int]);
            assert(m.set_headers@.skip(i as int).drop_first() =~= m.set_headers@.skip(i + 1));
        }
        match &m.set_headers[i].header {
            Some(h) => {
                if crate::strutil::str_eq_ignore_ascii_case(h.key.as_str(), target) {
                    if !h.value.as_str().is_empty() {
                        return Some(h.value.clone());
                    }
                    if h.raw_value.len() > 0 {
                        return Some(utf8_lossy(&h.raw_value));
                    }
                }
            },
            None => {},
        }
        i += 1;
    }
    proof {
        assert(m.set_headers@.skip(n as int) =~= Seq::<HeaderValueOption>::empty());
    }
    None
}

/// The mutation a response message carries, wherever its variant nests it.
pub open spec fn spec_mutation_of(resp: ProcessingResponse) -> Option<HeaderMutation> {
    match resp {
        ProcessingResponse::RequestHeaders(c) => common_mutation(c),
        ProcessingResponse::ResponseHeaders(c) => common_mutation(c),
        ProcessingResponse::RequestBody(c) => common_mutation(c),
        ProcessingResponse::ResponseBody(c) => common_mutation(c),
        ProcessingResponse::RequestTrailers(m) => m,
        ProcessingResponse::ResponseTrailers(m) => m,
        ProcessingResponse::ImmediateResponse(m) => m,
        ProcessingResponse::Unset => None,
    }
}

/// The mutation under the common wrapper, if both levels are present.
pub open spec fn common_mutation(c: Option<CommonResponse>) -> Option<HeaderMutation> {
    match c {
        Some(common) => common.header_mutation,
        None => None,
    }
}

/// The value a whole response message yields for `target`: every variant's
/// mutation is searched by the same rule.
pub open spec fn spec_response_value(resp: ProcessingResponse, target: Seq<char>) -> Option<
    Seq<char>,
> {
    match spec_mutation_of(resp) {
        Some(m) => spec_extract_mutation(m, target),
        None => None,
    }
}

/// Borrow the mutation out of a response message, wherever its variant
/// nests it.
pub fn mutation_of(resp: &ProcessingResponse) -> (r: Option<&HeaderMutation>)
    ensures
        match r {
            Some(m) => spec_mutation_of(*resp) == Some(*m),
            None => spec_mutation_of(*resp) is None,
        },
{
    match resp {
        ProcessingResponse::RequestHeaders(c) => common_mutation_of(c),
        ProcessingResponse::ResponseHeaders(c) => common_mutation_of(c),
        ProcessingResponse::RequestBody(c) => common_mutation_of(c),
        ProcessingResponse::ResponseBody(c) => common_mutation_of(c),
        ProcessingResponse::RequestTrailers(m) => m.as_ref(),
        ProcessingResponse::ResponseTrailers(m) => m.as_ref(),
        ProcessingResponse::ImmediateResponse(m) => m.as_ref(),
        ProcessingResponse::Unset => None,
    }
}

/// Borrow the mutation under the common wrapper.
fn common_mutation_of(c: &Option<CommonResponse>) -> (r: Option<&HeaderMutation>)
    ensures
        match r {
            Some(m) => common_mutation(*c) == Some(*m),
            None => common_mutation(*c) is None,
        },
{
    match c {
        Some(common) => common.header_mutation.as_ref(),
        None => None,
    }
}

/// Scan one response message for `target`'s value.
pub fn parse_response_for_header(resp: &ProcessingResponse, target: &str) -> (r: Option<String>)
    ensures
        match r {
            Some(v) => spec_response_value(*resp, target@) == Some(v@),
            None => spec_response_value(*resp, target@) is None,
        },
{
    match mutation_of(resp) {
        Some(m) => extract_header_from_mutation(m, target),
        None => None,
    }
}

/// An entry that matches the key with empty textual and raw values yields
/// nothing, so it neither halts the scan nor decides it: the first entry
/// that yields a value — wherever it stands behind any number of
/// non-yielding entries — is the one returned.
pub proof fn lemma_empty_match_does_not_halt(
    entries: Seq<HeaderValueOption>,
    target: Seq<char>,
    j: int,
)
    requires
        0 <= j < entries.len(),
        forall|k: int| 0 <= k < j ==> entry_yield(#[trigger] entries[k], target) is None,
        entry_yield(entries[j], target) is Some,
    ensures
        spec_extract(entries, target) == entry_yield(entries[j], target),
    decreases j,
{
    if j > 0 {
        let rest = entries.drop_first();
        assert(forall|k: int|
            0 <= k < j - 1 ==> entry_yield(#[trigger] rest[k], target) == entry_yield(
                entries[k + 1],
                target,
            ));
        lemma_empty_match_does_not_halt(rest, target, j - 1);
    }
}

/// The extraction rule, characterized without recursion: a set-list yields
/// `v` exactly when its first yielding entry, in list order, yields `v`;
/// it yields nothing exactly when no entry yields anything. Entries that
/// match the key with empty values yield nothing, so they cannot halt the
/// scan.
pub proof fn lemma_extract_first_match(entries: Seq<HeaderValueOption>, target: Seq<char>)
    ensures
        match spec_extract(entries, target) {
            Some(v) => exists|i: int|
                0 <= i < entries.len() && #[trigger] entry_yield(entries[i], target) == Some(v)
                    && (forall|j: int|
                    0 <= j < i ==> entry_yield(#[trigger] entries[j], target) is None),
            None => forall|i: int|
                0 <= i < entries.len() ==> entry_yield(#[trigger] entries[i], target) is None,
        },
    decreases entries.len(),
{
    if entries.len() == 0 {
    } else if entry_yield(entries[0], target) is Some {
    } else {
        lemma_extract_first_match(entries.drop_first(), target);
        let rest = entries.drop_first();
        match spec_extract(entries, target) {
            Some(v) => {
                let i0 = choose|i: int|
                    0 <= i < rest.len() && #[trigger] entry_yield(rest[i], target) == Some(v) && (
                    forall|j: int| 0 <= j < i ==> entry_yield(#[trigger] rest[j], target) is None);
                assert(forall|j: int|
                    1 <= j < i0 + 1 ==> entry_yield(#[trigger] entries[j], target) == entry_yield(
                        rest[j - 1],
                        target,
                    ));
                assert(entry_yield(entries[i0 + 1], target) == Some(v));
            },
            None => {
                assert(forall|i: int|
                    1 <= i < entries.len() ==> entry_yield(#[trigger] entries[i], target)
                        == entry_yield(rest[i - 1], target));
            },
        }
    }
}

} // verus!
