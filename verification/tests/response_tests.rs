use reroute::handler::handle_result;
use reroute::handler::IntoResponse;
use reroute::response::{Body, Response, WriteBody};

#[test]
fn response_without_body_writes_zero_content_length() {
    let resp = Response::new();
    let wire = resp.write_back();
    assert_eq!(wire.status, 200);
    assert_eq!(wire.body.len(), 0);
    assert!(wire.headers.iter().any(|(n, v)| n == "Content-Length" && v == "0"));
}

#[test]
fn explicit_status_is_kept_on_write_back() {
    let resp = Response::new().with_status(404);
    let wire = resp.write_back();
    assert_eq!(wire.status, 404);
    assert_eq!(wire.body.len(), 0);
}

#[test]
fn set_body_sets_content_length_to_the_byte_count() {
    let mut resp = Response::new();
    resp.set_body(b"hello".to_vec());
    assert!(resp.headers.iter().any(|(n, v)| n == "Content-Length" && v == "5"));
    let wire = resp.write_back();
    assert_eq!(wire.status, 200);
    assert_eq!(wire.body, b"hello");
}

#[test]
fn larger_content_length_is_formatted_in_decimal() {
    let mut resp = Response::new();
    resp.set_body(vec![7u8; 12345]);
    assert!(resp.headers.iter().any(|(n, v)| n == "Content-Length" && v == "12345"));
}

#[test]
fn empty_body_still_counts_zero_bytes() {
    let mut resp = Response::new();
    resp.set_body(Vec::new());
    assert!(resp.headers.iter().any(|(n, v)| n == "Content-Length" && v == "0"));
}

#[test]
fn text_body_is_written_as_utf8_bytes() {
    let mut resp = Response::new();
    resp.body = Some(Body::Text("héllo".to_string()));
    let wire = resp.write_back();
    assert_eq!(wire.body, "héllo".as_bytes());
}

#[test]
fn set_header_replaces_the_first_entry_with_that_name() {
    let mut resp = Response::new();
    resp.set_header("X-One".to_string(), "a".to_string());
    resp.set_header("X-Two".to_string(), "b".to_string());
    resp.set_header("X-One".to_string(), "c".to_string());
    assert_eq!(resp.headers.len(), 2);
    assert_eq!(resp.headers[0], ("X-One".to_string(), "c".to_string()));
    assert_eq!(resp.headers[1], ("X-Two".to_string(), "b".to_string()));
}

#[test]
fn with_chaining_builds_the_same_response() {
    let resp = Response::new()
        .with_status(201)
        .with_header("X-K".to_string(), "v".to_string())
        .with_body(b"abc".to_vec());
    assert_eq!(resp.status, Some(201));
    assert!(resp.headers.iter().any(|(n, v)| n == "X-K" && v == "v"));
    assert!(resp.headers.iter().any(|(n, v)| n == "Content-Length" && v == "3"));
    match resp.body {
        Some(Body::Bytes(b)) => assert_eq!(b, b"abc"),
        _ => panic!("expected a bytes body"),
    }
}

#[test]
fn write_body_appends_the_exact_bytes() {
    let mut out: Vec<u8> = vec![1];
    let mut v: Vec<u8> = vec![2, 3];
    v.write_body(&mut out);
    assert_eq!(out, vec![1, 2, 3]);
    let mut s = "ok".to_string();
    s.write_body(&mut out);
    assert_eq!(out, vec![1, 2, 3, b'o', b'k']);
}

#[test]
fn ok_outcome_passes_the_response_through() {
    let resp = Response::new().with_status(204);
    let out = handle_result::<String>(Ok(resp));
    assert_eq!(out.status, Some(204));
    assert!(out.body.is_none());
}

#[test]
fn err_outcome_converts_like_a_direct_conversion() {
    let out = handle_result::<String>(Err("boom".to_string()));
    let direct = "boom".to_string().into_response();
    assert_eq!(out.status, direct.status);
    assert_eq!(out.status, Some(500));
    assert_eq!(out.headers.len(), 0);
    match (out.body, direct.body) {
        (Some(Body::Text(a)), Some(Body::Text(b))) => {
            assert_eq!(a, b);
            assert_eq!(a, "boom");
        },
        _ => panic!("expected text bodies"),
    }
}

#[test]
fn borrowed_bodies_write_the_same_bytes() {
    let mut out: Vec<u8> = Vec::new();
    let mut slice_body: &[u8] = b"xy";
    slice_body.write_body(&mut out);
    let mut str_body: &str = "z";
    str_body.write_body(&mut out);
    let mut text_body = Body::Text("!".to_string());
    text_body.write_body(&mut out);
    assert_eq!(out, b"xyz!");
}
