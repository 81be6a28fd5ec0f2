//! The protocol client's pure half: what it sends for each exchange mode,
//! how it reads the response stream, and how its failures are classified.
//! The transport that carries the messages lives with the host.

use vstd::prelude::*;
use vstd::string::*;

use crate::protocol::{spec_response_value, ProcessingResponse};
use crate::strutil::{seq_starts_with, str_concat, str_starts_with};

verus! {

/// Bytes of one streamed body chunk when the configuration names no size.
pub const DEFAULT_CHUNK_SIZE: usize = 65536;

/// How a call on the processor can fail. A timeout is its own outcome: it
/// is neither a transport failure nor the benign close-without-match.
#[derive(Clone, Copy, Debug, PartialEq, Eq, Structural)]
pub enum EppCallError {
    /// The connection or stream failed.
    Transport,
    /// A message could not be read as the protocol defines it.
    Protocol,
    /// The call's time budget ran out before a usable response.
    Timeout,
}

/// How the request body is to be handed to the processor.
#[derive(Clone, Copy, Debug, PartialEq, Eq, Structural)]
pub enum BodySendMode {
    /// No body follows the headers.
    NoBody,
    /// The body follows in streamed chunks.
    Streamed,
}

/// One message of the outbound request stream.
pub enum ProcessingRequest {
    RequestHeaders { headers: Vec<(String, String)>, body_mode: BodySendMode, end_of_stream: bool },
    RequestBody { body: Vec<u8>, end_of_stream: bool },
}

/// Prefix the endpoint with a scheme when it names none: the secure scheme
/// under TLS, the plain one otherwise.
pub open spec fn spec_normalize_endpoint(endpoint: Seq<char>, use_tls: bool) -> Seq<char> {
    if seq_starts_with(endpoint, "http://"@) || seq_starts_with(endpoint, "https://"@) {
        endpoint
    } else if use_tls {
        "https://"@ + endpoint
    } else {
        "http://"@ + endpoint
    }
}

/// The URI the channel is opened on.
pub fn normalize_endpoint(endpoint: &str, use_tls: bool) -> (r: String)
    ensures
        r@ == spec_normalize_endpoint(endpoint@, use_tls),
{
    if str_starts_with(endpoint, "http://") || str_starts_with(endpoint, "https://") {
        String::from_str(endpoint)
    } else if use_tls {
        str_concat("https://", endpoint)
    } else {
        str_concat("http://", endpoint)
    }
}

/// `k` is the position of the last `c` in `s`.
pub open spec fn last_index_of(s: Seq<char>, c: char, k: int) -> bool {
    &&& 0 <= k < s.len()
    &&& s[k] == c
    &&& forall|j: int| k < j < s.len() ==> s[j] != c
}

/// The domain a certificate is checked against: the endpoint up to its last
/// colon, or all of it when it carries no port.
pub fn tls_domain(endpoint: &str) -> (r: String)
    ensures
        (exists|k: int| last_index_of(endpoint@, ':', k)) ==> exists|k: int|
            #[trigger] last_index_of(endpoint@, ':', k) && r@ == endpoint@.subrange(0, k),
        !(exists|k: int| last_index_of(endpoint@, ':', k)) ==> r@ == endpoint@,
{
    let len = endpoint.unicode_len();
    let mut i: usize = len;
    while i > 0
        invariant
            len == endpoint@.len(),
            i <= len,
            forall|j: int| i <= j < len ==> endpoint@[j] != ':',
        decreases i,
    {
        i -= 1;
        if endpoint.get_char(i) == ':' {
            proof {
                assert(last_index_of(endpoint@, ':', i as int));
            }
            let prefix = endpoint.substring_char(0, i);
            return String::from_str(prefix);
        }
    }
    proof {
        assert(forall|k: int| !last_index_of(endpoint@, ':', k));
    }
    String::from_str(endpoint)
}

/// The headers-only exchange: one headers message announcing no body, the
/// stream closed behind it.
pub fn plan_epp_exchange(headers: Vec<(String, String)>) -> (r: Vec<ProcessingRequest>)
    ensures
        r@.len() == 1,
        r@[0] == (ProcessingRequest::RequestHeaders {
            headers,
            body_mode: BodySendMode::NoBody,
            end_of_stream: true,
        }),
{
    let mut msgs: Vec<ProcessingRequest> = Vec::new();
    msgs.push(
        ProcessingRequest::RequestHeaders {
            headers,
            body_mode: BodySendMode::NoBody,
            end_of_stream: true,
        },
    );
    msgs
}

/// The body-streaming exchange: a headers message announcing a streamed
/// body (already final when the body is empty), then the body cut into
/// chunks of the configured size, the last chunk closing the stream.
pub fn plan_bbr_exchange(headers: Vec<(String, String)>, body: &Vec<u8>, chunk_size: usize) -> (r:
    Vec<ProcessingRequest>)
    ensures
        r@.len() >= 1,
        r@[0] == (ProcessingRequest::RequestHeaders {
            headers,
            body_mode: BodySendMode::Streamed,
            end_of_stream: body@.len() == 0,
        }),
        body@.len() == 0 ==> r@.len() == 1,
        body@.len() > 0 ==> {
            let c = spec_chunk_size(chunk_size) as int;
            let k = r@.len() - 1;
            &&& k * c >= body@.len()
            &&& (k - 1) * c < body@.len()
            &&& forall|i: int|
                1 <= i <= k ==> {
                    &&& #[trigger] r@[i] is RequestBody
                    &&& r@[i]->RequestBody_body@ == body@.subrange(
                        (i - 1) * c,
                        spec_min(i * c, body@.len() as int),
                    )
                    &&& r@[i]->RequestBody_end_of_stream == (i == k)
                }
        },
{
    let c = effective_chunk_size(chunk_size);
    let mut msgs: Vec<ProcessingRequest> = Vec::new();
    let len = body.len();
    msgs.push(
        ProcessingRequest::RequestHeaders {
            headers,
            body_mode: BodySendMode::Streamed,
            end_of_stream: len == 0,
        },
    );
    let mut offset: usize = 0;
    proof {
        assert(msgs@.len() == 1);
        assert((msgs@.len() - 1) * (c as int) == 0);
        assert(spec_min((msgs@.len() - 1) * (c as int), len as int) == 0);
    }
    while offset < len
        invariant
            len == body@.len(),
            c == spec_chunk_size(chunk_size),
            c > 0,
            msgs@.len() >= 1,
            msgs@[0] == (ProcessingRequest::RequestHeaders {
                headers,
                body_mode: BodySendMode::Streamed,
                end_of_stream: len == 0,
            }),
            offset == spec_min((msgs@.len() - 1) * c, len as int),
            msgs@.len() >= 2 ==> (msgs@.len() - 2) * c < len,
            forall|i: int|
                1 <= i < msgs@.len() ==> {
                    &&& #[trigger] msgs@[i] is RequestBody
                    &&& msgs@[i]->RequestBody_body@ == body@.subrange(
                        (i - 1) * c,
                        spec_min(i * c, len as int),
                    )
                    &&& msgs@[i]->RequestBody_end_of_stream == (spec_min(i * c, len as int) == len)
                },
        decreases len - offset,
    {
        let ghost k_before = msgs@.len() - 1;
        let end = if len - offset < c {
            len
        } else {
            offset + c
        };
        let mut chunk: Vec<u8> = Vec::new();
        let mut j: usize = offset;
        while j < end
            invariant
                offset <= j <= end,
                end <= len,
                len == body@.len(),
                chunk@ == body@.subrange(offset as int, j as int),
            decreases end - j,
        {
            proof {
                assert(body@.subrange(offset as int, j + 1) =~= body@.subrange(
                    offset as int,
                    j as int,
                ).push(body@[j as int]));
            }
            chunk.push(body[j]);
            j += 1;
        }
        let eos = end == len;
        proof {
            assert(offset == k_before * c);
            assert(end == spec_min((k_before + 1) * c, len as int)) by (nonlinear_arith)
                requires
                    c > 0,
                    offset == k_before * c,
                    offset < len,
                    end == if len - offset < c {
                        len as int
                    } else {
                        offset + c
                    },
            ;
        }
        msgs.push(ProcessingRequest::RequestBody { body: chunk, end_of_stream: eos });
        offset = end;
        proof {
            assert(forall|i: int|
                1 <= i < msgs@.len() - 1 ==> {
                    &&& #[trigger] msgs@[i] is RequestBody
                    &&& msgs@[i]->RequestBody_body@ == body@.subrange(
                        (i - 1) * c,
                        spec_min(i * c, len as int),
                    )
                    &&& msgs@[i]->RequestBody_end_of_stream == (spec_min(i * c, len as int) == len)
                });
        }
    }
    proof {
        if len > 0 {
            let k = msgs@.len() - 1;
            assert(k * c >= len && (k - 1) * c < len);
            assert forall|i: int| 1 <= i <= k implies {
                &&& #[trigger] msgs@[i] is RequestBody
                &&& msgs@[i]->RequestBody_body@ == body@.subrange(
                    (i - 1) * c,
                    spec_min(i * c, len as int),
                )
                &&& msgs@[i]->RequestBody_end_of_stream == (i == k)
            } by {
                assert(spec_min(i * c, len as int) == len <==> i == k) by (nonlinear_arith)
                    requires
                        c > 0,
                        1 <= i <= k,
                        k * c >= len,
                        (k - 1) * c < len,
                        len > 0,
                ;
            }
        }
    }
    msgs
}

/// The smaller of two numbers.
pub open spec fn spec_min(a: int, b: int) -> int {
    if a < b {
        a
    } else {
        b
    }
}

/// The chunk size in force: the configured one, or the stock size for zero.
pub open spec fn spec_chunk_size(configured: usize) -> usize {
    if configured == 0 {
        DEFAULT_CHUNK_SIZE
    } else {
        configured
    }
}

pub fn effective_chunk_size(configured: usize) -> (r: usize)
    ensures
        r == spec_chunk_size(configured),
{
    if configured == 0 {
        DEFAULT_CHUNK_SIZE
    } else {
        configured
    }
}

/// One observation on the inbound response stream.
pub enum StreamEvent {
    /// A response message arrived.
    Response(ProcessingResponse),
    /// The stream closed in order.
    Closed,
    /// Receiving failed.
    RecvError,
}

/// What the scan does after one observation.
pub enum ScanStep {
    /// The target header's value arrived; the exchange is over.
    Found(String),
    /// Nothing usable yet; keep reading.
    KeepReading,
    /// The stream closed without a match: a valid empty outcome.
    NoUpstream,
    /// The exchange failed.
    Failed(EppCallError),
}

/// What a whole response stream resolves to: the first decisive event
/// settles it — a message yielding the target's value, an orderly close
/// (the no-match outcome), or a receive failure. A stream that runs out
/// undecided counts as closed without a match.
pub open spec fn spec_scan_stream(events: Seq<StreamEvent>, target: Seq<char>) -> Result<
    Option<Seq<char>>,
    EppCallError,
>
    decreases events.len(),
{
    if events.len() == 0 {
        Ok(None)
    } else {
        match events[0] {
            StreamEvent::Response(resp) => match spec_response_value(resp, target) {
                Some(v) => Ok(Some(v)),
                None => spec_scan_stream(events.drop_first(), target),
            },
            StreamEvent::Closed => Ok(None),
            StreamEvent::RecvError => Err(EppCallError::Transport),
        }
    }
}

/// Read a response stream for `target`'s value: messages are scanned in
/// arrival order until one yields the value, the stream closes — a valid
/// empty outcome, not an error — or receiving fails.
pub fn scan_stream(events: &Vec<StreamEvent>, target: &str) -> (r: Result<
    Option<String>,
    EppCallError,
>)
    ensures
        match r {
            Ok(Some(v)) => spec_scan_stream(events@, target@) == Ok::<Option<Seq<char>>, EppCallError>(Some(v@)),
            Ok(None) => spec_scan_stream(events@, target@) == Ok::<Option<Seq<char>>, EppCallError>(None),
            Err(e) => spec_scan_stream(events@, target@) == Err::<Option<Seq<char>>, EppCallError>(e),
        },
{
    let n = events.len();
    let mut i: usize = 0;
    proof {
        assert(events@.skip(0) =~= events@);
    }
    while i < n
        invariant
            n == events@.len(),
            i <= n,
            spec_scan_stream(events@, target@) == spec_scan_stream(events@.skip(i as int), target@),
        decreases n - i,
    {
        proof {
            assert(events@.skip(i as int)[0] == events@[i as int]);
            assert(events@.skip(i as int).drop_first() =~= events@.skip(i + 1));
        }
        match &events[i] {
            StreamEvent::Response(resp) => {
                match crate::protocol::parse_response_for_header(resp, target) {
                    Some(v) => {
                        return Ok(Some(v));
                    },
                    None => {},
                }
            },
            StreamEvent::Closed => {
                return Ok(None);
            },
            StreamEvent::RecvError => {
                return Err(EppCallError::Transport);
            },
        }
        i += 1;
    }
    proof {
        assert(events@.skip(n as int) =~= Seq::<StreamEvent>::empty());
    }
    Ok(None)
}

/// How one event advances the response scan: a message either yields the
/// target's value or is read past; an orderly close is the no-match
/// outcome, never an error; a receive failure is a transport failure.
pub fn scan_event(ev: StreamEvent, target: &str) -> (r: ScanStep)
    ensures
        match ev {
            StreamEvent::Response(resp) => match spec_response_value(resp, target@) {
                Some(v) => r matches ScanStep::Found(s) && s@ == v,
                None => r is KeepReading,
            },
            StreamEvent::Closed => r is NoUpstream,
            StreamEvent::RecvError => r == ScanStep::Failed(EppCallError::Transport),
        },
{
    match ev {
        StreamEvent::Response(resp) => {
            match crate::protocol::parse_response_for_header(&resp, target) {
                Some(v) => ScanStep::Found(v),
                None => ScanStep::KeepReading,
            }
        },
        StreamEvent::Closed => ScanStep::NoUpstream,
        StreamEvent::RecvError => ScanStep::Failed(EppCallError::Transport),
    }
}

} // verus!
