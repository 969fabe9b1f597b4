use glazed::proxy::{
    forward_download_response, forwarded_headers, report_unexpected_response, status_bucket,
    unexpected_response_text, Header, ProxyBody, ProxyResponse, ProxyStep, StatusBucket, Upstream,
};

fn header(name: &str, value: &str) -> Header {
    Header { name: name.to_string(), value: value.as_bytes().to_vec() }
}

fn respond(step: ProxyStep) -> ProxyResponse {
    match step {
        ProxyStep::Respond(p) => p,
        ProxyStep::ReadBody { status } => panic!("expected a response, got a body read for {status}"),
    }
}

fn text(body: &ProxyBody) -> &str {
    match body {
        ProxyBody::Text(t) => t.as_str(),
        ProxyBody::Upstream => panic!("expected a body of the proxy's own"),
    }
}

#[test]
fn success_forwards_only_allowed_headers() {
    let upstream = Upstream::Responded {
        status: 200,
        headers: vec![header("content-type", "text/plain"), header("x-internal", "secret")],
    };
    let p = respond(forward_download_response(&upstream));
    assert_eq!(p.status, 200);
    assert_eq!(p.headers, vec![header("content-type", "text/plain")]);
    // the body "abc" is streamed through unchanged
    assert_eq!(p.body, ProxyBody::Upstream);
}

#[test]
fn success_keeps_partial_content_status() {
    let upstream = Upstream::Responded { status: 206, headers: vec![] };
    let p = respond(forward_download_response(&upstream));
    assert_eq!(p.status, 206);
    assert!(p.headers.is_empty());
}

#[test]
fn allowed_headers_come_in_allow_list_order_first_value_only() {
    let hs = vec![
        header("last-modified", "yesterday"),
        header("cache-control", "no-store"),
        header("content-length", "3"),
        header("content-disposition", "attachment"),
        header("content-length", "4"),
        header("traceparent", "00-abc"),
    ];
    assert_eq!(
        forwarded_headers(&hs),
        vec![
            header("content-disposition", "attachment"),
            header("content-length", "3"),
            header("last-modified", "yesterday"),
        ]
    );
}

#[test]
fn client_error_is_forwarded_without_headers() {
    let upstream = Upstream::Responded { status: 404, headers: vec![header("content-type", "application/json")] };
    let p = respond(forward_download_response(&upstream));
    assert_eq!(p.status, 404);
    assert!(p.headers.is_empty());
    // the body {"detail":"not found"} is streamed through unchanged
    assert_eq!(p.body, ProxyBody::Upstream);
}

#[test]
fn connection_refused_is_unavailable() {
    let p = respond(forward_download_response(&Upstream::ConnectFailed));
    assert_eq!(p.status, 503);
    assert!(p.headers.is_empty());
    assert_eq!(text(&p.body), "Could not connect to tiled");
}

#[test]
fn other_transport_failure_is_internal_error() {
    let p = respond(forward_download_response(&Upstream::Failed));
    assert_eq!(p.status, 500);
    assert_eq!(text(&p.body), "Error making request to tiled");
}

#[test]
fn unexpected_status_reads_the_body() {
    for status in [0u16, 99, 101, 199, 302, 399, 500, 503, 600, 999] {
        let upstream = Upstream::Responded { status, headers: vec![header("content-type", "text/plain")] };
        assert_eq!(forward_download_response(&upstream), ProxyStep::ReadBody { status });
    }
}

#[test]
fn status_buckets_at_their_edges() {
    assert_eq!(status_bucket(199), StatusBucket::Unexpected);
    assert_eq!(status_bucket(200), StatusBucket::Success);
    assert_eq!(status_bucket(299), StatusBucket::Success);
    assert_eq!(status_bucket(300), StatusBucket::Unexpected);
    assert_eq!(status_bucket(399), StatusBucket::Unexpected);
    assert_eq!(status_bucket(400), StatusBucket::ClientError);
    assert_eq!(status_bucket(499), StatusBucket::ClientError);
    assert_eq!(status_bucket(500), StatusBucket::Unexpected);
}

#[test]
fn unexpected_switching_protocols_reports_parsed_json() {
    let p = report_unexpected_response(101, Ok("{\"b\": 2, \"a\": [1, true]}".to_string()));
    assert_eq!(p.status, 503);
    assert!(p.headers.is_empty());
    assert_eq!(
        text(&p.body),
        "{\"detail\":\"Unexpected response from tiled\",\"status\":101,\"response\":{\"a\":[1,true],\"b\":2}}"
    );
}

#[test]
fn unexpected_body_that_is_not_json_is_a_string() {
    let p = report_unexpected_response(101, Ok("Bad \"gateway\"".to_string()));
    assert_eq!(
        text(&p.body),
        "{\"detail\":\"Unexpected response from tiled\",\"status\":101,\"response\":\"Bad \\\"gateway\\\"\"}"
    );
}

#[test]
fn unreadable_unexpected_body_is_reported() {
    let p = report_unexpected_response(502, Err("connection reset".to_string()));
    assert_eq!(
        text(&p.body),
        "{\"detail\":\"Unexpected response from tiled\",\"status\":502,\"response\":\"Unable to read error response: connection reset\"}"
    );
}

#[test]
fn unexpected_report_text_is_exact() {
    assert_eq!(
        unexpected_response_text(0, "null"),
        "{\"detail\":\"Unexpected response from tiled\",\"status\":0,\"response\":null}"
    );
    assert_eq!(
        unexpected_response_text(65535, "\"x\""),
        "{\"detail\":\"Unexpected response from tiled\",\"status\":65535,\"response\":\"x\"}"
    );
}
