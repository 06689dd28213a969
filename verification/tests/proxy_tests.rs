use sorai::vite::options::ViteProxyOptions;
use sorai::vite::proxy::{
    begin_forward, build_forward_request, build_forward_uri, check_payload_size,
    collect_request_body, complete_forward, forward_uri_text, plan_forward, relay_response,
    BodyBuffer, BodyRead, Header, ProxyError, RequestHead, UpstreamOutcome, MAX_PAYLOAD_SIZE,
};

fn header(name: &str, value: &[u8]) -> Header {
    Header { name: name.to_string(), value: value.to_vec() }
}

fn head(method: &str, target: Option<&str>, headers: Vec<Header>) -> RequestHead {
    RequestHead {
        method: method.to_string(),
        path_and_query: target.map(|t| t.to_string()),
        headers,
    }
}

fn lines(headers: &[Header]) -> Vec<(String, Vec<u8>)> {
    headers.iter().map(|h| (h.name.clone(), h.value.clone())).collect()
}

#[test]
fn backend_not_ready_without_port() {
    let options = ViteProxyOptions::new();
    let out = begin_forward(&options, head("GET", Some("/ui/"), vec![]));
    assert_eq!(out.err(), Some(ProxyError::BackendNotReady));
    assert_eq!(ProxyError::BackendNotReady.status_code(), 500);

    let read = BodyRead::Chunks(vec![]);
    let out = plan_forward(&options, head("GET", Some("/ui/"), vec![]), &read);
    assert_eq!(out.err(), Some(ProxyError::BackendNotReady));
}

#[test]
fn status_codes_of_errors() {
    assert_eq!(ProxyError::BackendNotReady.status_code(), 500);
    assert_eq!(ProxyError::BuildRequestFailure.status_code(), 500);
    assert_eq!(ProxyError::PayloadTooLarge.status_code(), 413);
    assert_eq!(ProxyError::UpstreamUnavailable.status_code(), 502);
    assert_eq!(ProxyError::RelayFailure.status_code(), 500);
}

#[test]
fn forward_uri_keeps_path_and_query() {
    assert_eq!(
        build_forward_uri(5173, Some("/app.js?v=2&t=123456789")).unwrap(),
        "http://localhost:5173/app.js?v=2&t=123456789"
    );
    assert_eq!(build_forward_uri(80, Some("/")).unwrap(), "http://localhost:80/");
    assert_eq!(build_forward_uri(65535, None).unwrap(), "http://localhost:65535/");
    assert_eq!(build_forward_uri(0, Some("/a/b/c?")).unwrap(), "http://localhost:0/a/b/c?");
    assert_eq!(forward_uri_text(9996, "/x?y=z"), "http://localhost:9996/x?y=z");
}

#[test]
fn forward_uri_that_does_not_parse_is_a_build_failure() {
    assert_eq!(
        build_forward_uri(5173, Some("/a b")).err(),
        Some(ProxyError::BuildRequestFailure)
    );
    let long = format!("/{}", "a".repeat(70000));
    assert_eq!(
        build_forward_uri(5173, Some(long.as_str())).err(),
        Some(ProxyError::BuildRequestFailure)
    );
    let options = ViteProxyOptions::new().port(5173);
    let out = begin_forward(&options, head("GET", Some("/a b"), vec![]));
    assert_eq!(out.err(), Some(ProxyError::BuildRequestFailure));
}

#[test]
fn method_and_headers_are_forwarded_unchanged() {
    let options = ViteProxyOptions::new().port(9994);
    let headers = vec![
        header("X-Custom-Header", b"test-value"),
        header("accept", b"*/*"),
        header("accept", b"text/html"),
        header("x-bytes", &[0xff, 0x00, 0x80]),
    ];
    let expected = lines(&headers);
    let read = BodyRead::Chunks(vec![b"{\"key\":".to_vec(), b"\"value\"}".to_vec()]);
    let request = plan_forward(&options, head("POST", Some("/api/test"), headers), &read).unwrap();
    assert_eq!(request.uri, "http://localhost:9994/api/test");
    assert_eq!(request.method, "POST");
    assert_eq!(lines(&request.headers), expected);
    assert_eq!(request.body, b"{\"key\":\"value\"}".to_vec());
}

#[test]
fn begin_and_complete_agree_with_plan() {
    let options = ViteProxyOptions::new().port(3000);
    let pending = begin_forward(&options, head("GET", None, vec![header("a", b"b")])).unwrap();
    assert_eq!(pending.uri, "http://localhost:3000/");
    assert_eq!(pending.method, "GET");
    let request = complete_forward(pending, &BodyRead::Chunks(vec![])).unwrap();
    assert_eq!(request.uri, "http://localhost:3000/");
    assert!(request.body.is_empty());
    assert_eq!(lines(&request.headers), vec![("a".to_string(), b"b".to_vec())]);

    let built = build_forward_request(
        "http://localhost:1/".to_string(),
        "PUT".to_string(),
        vec![header("h", b"v")],
        vec![1, 2, 3],
    );
    assert_eq!(built.uri, "http://localhost:1/");
    assert_eq!(built.method, "PUT");
    assert_eq!(built.body, vec![1, 2, 3]);
}

#[test]
fn repeated_request_is_planned_the_same_way() {
    let options = ViteProxyOptions::new().port(9995);
    let make = || head("GET", Some("/index.html"), vec![header("accept", b"text/html")]);
    let first = plan_forward(&options, make(), &BodyRead::Chunks(vec![b"ab".to_vec(), b"c".to_vec()])).unwrap();
    let second = plan_forward(&options, make(), &BodyRead::Chunks(vec![b"a".to_vec(), b"bc".to_vec()])).unwrap();
    assert_eq!(first.uri, second.uri);
    assert_eq!(first.method, second.method);
    assert_eq!(lines(&first.headers), lines(&second.headers));
    assert_eq!(first.body, second.body);
}

#[test]
fn payload_limit_boundary() {
    assert_eq!(MAX_PAYLOAD_SIZE, 1024 * 1024 * 1024);
    assert_eq!(check_payload_size(0), Ok(()));
    assert_eq!(check_payload_size(1024 * 1024 * 1024), Ok(()));
    assert_eq!(check_payload_size(1024 * 1024 * 1024 + 1), Err(ProxyError::PayloadTooLarge));
    assert_eq!(check_payload_size(usize::MAX), Err(ProxyError::PayloadTooLarge));
}

#[test]
fn body_one_byte_over_the_limit_is_refused_before_it_is_kept() {
    let big = vec![0u8; MAX_PAYLOAD_SIZE + 1];
    let mut buffer = BodyBuffer::new();
    assert_eq!(buffer.push_chunk(&big), Err(ProxyError::PayloadTooLarge));
    assert_eq!(buffer.len(), 0);

    assert_eq!(buffer.push_chunk(&[1]), Ok(()));
    assert_eq!(buffer.push_chunk(&big[..MAX_PAYLOAD_SIZE]), Err(ProxyError::PayloadTooLarge));
    assert_eq!(buffer.len(), 1);
    assert_eq!(buffer.finish(), vec![1]);
}

#[test]
fn body_chunks_are_joined_in_order() {
    let mut buffer = BodyBuffer::new();
    assert_eq!(buffer.push_chunk(b"hello "), Ok(()));
    assert_eq!(buffer.push_chunk(b""), Ok(()));
    assert_eq!(buffer.push_chunk(b"world"), Ok(()));
    assert_eq!(buffer.len(), 11);
    assert_eq!(buffer.finish(), b"hello world".to_vec());

    let read = BodyRead::Chunks(vec![b"a".to_vec(), vec![], b"bc".to_vec()]);
    assert_eq!(collect_request_body(&read), Ok(b"abc".to_vec()));
    assert_eq!(collect_request_body(&BodyRead::Chunks(vec![])), Ok(vec![]));
}

#[test]
fn unreadable_body_is_answered_like_an_oversized_one() {
    assert_eq!(collect_request_body(&BodyRead::Failed), Err(ProxyError::PayloadTooLarge));
    let options = ViteProxyOptions::new().port(5173);
    let out = plan_forward(&options, head("POST", Some("/"), vec![]), &BodyRead::Failed);
    assert_eq!(out.err(), Some(ProxyError::PayloadTooLarge));
}

#[test]
fn backend_response_is_relayed_verbatim() {
    let headers = vec![header("content-type", b"text/html"), header("x-powered-by", b"vite")];
    let expected = lines(&headers);
    let body = b"<!doctype html><html></html>".to_vec();
    let outcome = UpstreamOutcome::Response { status: 200, headers, body: Some(body.clone()) };
    let response = relay_response(outcome).unwrap();
    assert_eq!(response.status, 200);
    assert_eq!(lines(&response.headers), expected);
    assert_eq!(response.body, body);

    let outcome = UpstreamOutcome::Response { status: 404, headers: vec![], body: Some(vec![]) };
    let response = relay_response(outcome).unwrap();
    assert_eq!(response.status, 404);
    assert!(response.body.is_empty());
}

#[test]
fn backend_gone_is_bad_gateway() {
    let out = relay_response(UpstreamOutcome::Unreachable);
    assert_eq!(out.as_ref().err(), Some(&ProxyError::UpstreamUnavailable));
    assert_eq!(out.err().unwrap().status_code(), 502);
}

#[test]
fn broken_backend_body_is_a_relay_failure() {
    let outcome = UpstreamOutcome::Response {
        status: 200,
        headers: vec![header("content-length", b"10")],
        body: None,
    };
    let out = relay_response(outcome);
    assert_eq!(out.as_ref().err(), Some(&ProxyError::RelayFailure));
    assert_eq!(out.err().unwrap().status_code(), 500);
}

#[test]
fn body_of_exactly_the_limit_is_kept_whole() {
    let big = vec![0u8; MAX_PAYLOAD_SIZE];
    let mut buffer = BodyBuffer::new();
    assert_eq!(buffer.push_chunk(&big[..MAX_PAYLOAD_SIZE - 1]), Ok(()));
    assert_eq!(buffer.push_chunk(&big[..1]), Ok(()));
    assert_eq!(buffer.len(), MAX_PAYLOAD_SIZE);
    assert_eq!(buffer.push_chunk(&[1]), Err(ProxyError::PayloadTooLarge));
    assert_eq!(buffer.push_chunk(&[]), Ok(()));
    let body = buffer.finish();
    assert_eq!(body.len(), MAX_PAYLOAD_SIZE);
    assert_eq!(body[0], 0);
    assert_eq!(body[MAX_PAYLOAD_SIZE - 1], 0);
}
