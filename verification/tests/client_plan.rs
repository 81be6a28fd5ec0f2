use ngx_inference::bridge::epp_task_outcome;
use ngx_inference::client::{
    normalize_endpoint, plan_bbr_exchange, plan_epp_exchange, tls_domain, BodySendMode,
    EppCallError, ProcessingRequest,
};

#[test]
fn endpoints_get_a_scheme_when_they_name_none() {
    assert_eq!(normalize_endpoint("epp.internal:9001", false), "http://epp.internal:9001");
    assert_eq!(normalize_endpoint("epp.internal:9001", true), "https://epp.internal:9001");
    assert_eq!(normalize_endpoint("http://a:1", true), "http://a:1");
    assert_eq!(normalize_endpoint("https://a:1", false), "https://a:1");
}

#[test]
fn tls_domain_strips_the_port() {
    assert_eq!(tls_domain("epp.internal:9001"), "epp.internal");
    assert_eq!(tls_domain("epp.internal"), "epp.internal");
    assert_eq!(tls_domain("a:b:9001"), "a:b");
    assert_eq!(tls_domain(""), "");
}

#[test]
fn headers_only_exchange_is_one_final_message() {
    let headers = vec![("host".to_string(), "h".to_string())];
    let msgs = plan_epp_exchange(headers.clone());
    assert_eq!(msgs.len(), 1);
    match &msgs[0] {
        ProcessingRequest::RequestHeaders { headers: hs, body_mode, end_of_stream } => {
            assert_eq!(hs, &headers);
            assert_eq!(*body_mode, BodySendMode::NoBody);
            assert!(*end_of_stream);
        },
        _ => panic!("expected a headers message"),
    }
}

fn chunk(msg: &ProcessingRequest) -> (&[u8], bool) {
    match msg {
        ProcessingRequest::RequestBody { body, end_of_stream } => (body, *end_of_stream),
        _ => panic!("expected a body chunk"),
    }
}

#[test]
fn streamed_exchange_cuts_the_body_at_the_chunk_size() {
    let headers: Vec<(String, String)> = Vec::new();
    let body: Vec<u8> = (0u8..=9).collect();
    let msgs = plan_bbr_exchange(headers, &body, 4);
    assert_eq!(msgs.len(), 4);
    match &msgs[0] {
        ProcessingRequest::RequestHeaders { body_mode, end_of_stream, .. } => {
            assert_eq!(*body_mode, BodySendMode::Streamed);
            assert!(!*end_of_stream);
        },
        _ => panic!("expected a headers message"),
    }
    assert_eq!(chunk(&msgs[1]), (&body[0..4], false));
    assert_eq!(chunk(&msgs[2]), (&body[4..8], false));
    assert_eq!(chunk(&msgs[3]), (&body[8..10], true));
}

#[test]
fn streamed_exchange_with_exact_multiple_has_no_short_chunk() {
    let body: Vec<u8> = vec![5; 8];
    let msgs = plan_bbr_exchange(Vec::new(), &body, 4);
    assert_eq!(msgs.len(), 3);
    assert_eq!(chunk(&msgs[1]), (&body[0..4], false));
    assert_eq!(chunk(&msgs[2]), (&body[4..8], true));
}

#[test]
fn empty_body_streams_nothing_and_closes_on_headers() {
    let msgs = plan_bbr_exchange(Vec::new(), &Vec::new(), 4);
    assert_eq!(msgs.len(), 1);
    match &msgs[0] {
        ProcessingRequest::RequestHeaders { end_of_stream, .. } => assert!(*end_of_stream),
        _ => panic!("expected a headers message"),
    }
}

#[test]
fn zero_chunk_size_means_the_stock_chunk_size() {
    let body: Vec<u8> = vec![1; 65536 + 1];
    let msgs = plan_bbr_exchange(Vec::new(), &body, 0);
    assert_eq!(msgs.len(), 3);
    assert_eq!(chunk(&msgs[1]).0.len(), 65536);
    assert_eq!(chunk(&msgs[2]), (&body[65536..], true));
}

#[test]
fn worker_report_keeps_the_value_and_names_each_failure() {
    assert_eq!(epp_task_outcome(Ok(Some("u:1".to_string()))), Ok("u:1".to_string()));
    assert_eq!(epp_task_outcome(Ok(None)), Err("EPP returned no upstream".to_string()));
    assert_eq!(
        epp_task_outcome(Err(EppCallError::Transport)),
        Err("EPP transport error".to_string())
    );
    assert_eq!(
        epp_task_outcome(Err(EppCallError::Protocol)),
        Err("EPP protocol error".to_string())
    );
    assert_eq!(epp_task_outcome(Err(EppCallError::Timeout)), Err("EPP call timed out".to_string()));
}
