use reroute::method::Method;
use reroute::request::Request;
use reroute::response::{Body, Response};
use reroute::router::Router;
use reroute::{BuildError, InnerHandler};

/// A handler that tags its response with a status code and echoes capture
/// group 1 (when bound) as the body.
struct TagHandler(u16);

impl InnerHandler for TagHandler {
    fn handle(&self, req: &Request) -> Response {
        let mut resp = Response::new();
        resp.set_status(self.0);
        if let Some(caps) = req.captures() {
            if let Some(Some(g1)) = caps.get(1) {
                resp.set_body(g1.clone().into_bytes());
            }
        }
        resp
    }
}

#[test]
fn it_works() {
}

#[test]
fn digit_pattern_wins_by_priority() {
    let router = Router::build()
        .add_get_with_priority("^/(\\d+)$".to_string(), 0, TagHandler(201))
        .add_get_with_priority("^/.*$".to_string(), 1, TagHandler(202))
        .add_not_found(TagHandler(404))
        .finish()
        .unwrap();
    let mut req = Request::new(Method::Get, "/42".to_string(), Vec::new());
    let resp = router.dispatch(&mut req);
    assert_eq!(resp.status, Some(201));
    let caps = req.captures().unwrap();
    assert_eq!(caps.len(), 2);
    assert_eq!(caps[0].as_deref(), Some("/42"));
    assert_eq!(caps[1].as_deref(), Some("42"));
    match resp.body {
        Some(Body::Bytes(b)) => assert_eq!(b, b"42"),
        _ => panic!("expected a bytes body"),
    }
}

#[test]
fn wildcard_wins_when_digits_do_not_match() {
    let router = Router::build()
        .add_get_with_priority("^/(\\d+)$".to_string(), 0, TagHandler(201))
        .add_get_with_priority("^/.*$".to_string(), 1, TagHandler(202))
        .add_not_found(TagHandler(404))
        .finish()
        .unwrap();
    let mut req = Request::new(Method::Get, "/abc".to_string(), Vec::new());
    let resp = router.dispatch(&mut req);
    assert_eq!(resp.status, Some(202));
}

#[test]
fn lower_priority_number_wins_even_when_registered_later() {
    let router = Router::build()
        .add_get_with_priority("^/x$".to_string(), 5, TagHandler(210))
        .add_get_with_priority("^/x$".to_string(), 2, TagHandler(211))
        .add_not_found(TagHandler(404))
        .finish()
        .unwrap();
    let mut req = Request::new(Method::Get, "/x".to_string(), Vec::new());
    let resp = router.dispatch(&mut req);
    assert_eq!(resp.status, Some(211));
}

#[test]
fn first_registered_wins_on_priority_tie() {
    let router = Router::build()
        .add_get_with_priority("^/x$".to_string(), 3, TagHandler(220))
        .add_get_with_priority("^/x.*$".to_string(), 3, TagHandler(221))
        .add_not_found(TagHandler(404))
        .finish()
        .unwrap();
    let mut req = Request::new(Method::Get, "/x".to_string(), Vec::new());
    let resp = router.dispatch(&mut req);
    assert_eq!(resp.status, Some(220));
}

#[test]
fn method_mismatch_goes_to_not_found() {
    let router = Router::build()
        .add_post("^/body$".to_string(), TagHandler(200))
        .add_not_found(TagHandler(404))
        .finish()
        .unwrap();
    let mut req = Request::new(Method::Get, "/body".to_string(), Vec::new());
    let resp = router.dispatch(&mut req);
    assert_eq!(resp.status, Some(404));
    assert!(req.captures().is_none());
}

#[test]
fn no_matching_pattern_goes_to_not_found() {
    let router = Router::build()
        .add_get("^/only$".to_string(), TagHandler(200))
        .add_not_found(TagHandler(404))
        .finish()
        .unwrap();
    let mut req = Request::new(Method::Get, "/other".to_string(), Vec::new());
    let resp = router.dispatch(&mut req);
    assert_eq!(resp.status, Some(404));
    assert!(req.captures().is_none());
}

#[test]
fn query_is_not_matched_against_patterns() {
    let router = Router::build()
        .add_get("^/exact$".to_string(), TagHandler(200))
        .add_not_found(TagHandler(404))
        .finish()
        .unwrap();
    let mut req = Request::new(Method::Get, "/exact?trailing=1".to_string(), Vec::new());
    let resp = router.dispatch(&mut req);
    assert_eq!(resp.status, Some(200));
}

#[test]
fn repeated_dispatch_is_deterministic() {
    let router = Router::build()
        .add_get_with_priority("^/(\\d+)$".to_string(), 0, TagHandler(201))
        .add_get_with_priority("^/.*$".to_string(), 1, TagHandler(202))
        .add_not_found(TagHandler(404))
        .finish()
        .unwrap();
    for _ in 0..3 {
        let mut req = Request::new(Method::Get, "/42".to_string(), Vec::new());
        let resp = router.dispatch(&mut req);
        assert_eq!(resp.status, Some(201));
    }
    assert_eq!(router.select_route(Method::Get, "/42"), Some(0));
    assert_eq!(router.select_route(Method::Get, "/abc"), Some(1));
    assert_eq!(router.select_route(Method::Get, "nothing-here"), None);
    assert_eq!(router.select_route(Method::Post, "/42"), None);
}

#[test]
fn optional_group_that_does_not_participate_is_none() {
    let router = Router::build()
        .add_get("^/(a)?(b)$".to_string(), TagHandler(200))
        .add_not_found(TagHandler(404))
        .finish()
        .unwrap();
    let mut req = Request::new(Method::Get, "/b".to_string(), Vec::new());
    let resp = router.dispatch(&mut req);
    assert_eq!(resp.status, Some(200));
    let caps = req.captures().unwrap();
    assert_eq!(caps.len(), 3);
    assert_eq!(caps[0].as_deref(), Some("/b"));
    assert!(caps[1].is_none());
    assert_eq!(caps[2].as_deref(), Some("b"));
}

#[test]
fn invalid_pattern_is_reported_with_method_and_pattern() {
    let result = Router::build()
        .add_get("(".to_string(), TagHandler(200))
        .add_not_found(TagHandler(404))
        .finish();
    match result {
        Err(BuildError::InvalidPattern { method, pattern }) => {
            assert_eq!(method, Method::Get);
            assert_eq!(pattern, "(");
        },
        _ => panic!("expected an invalid-pattern error"),
    }
}

#[test]
fn missing_not_found_handler_is_reported() {
    let result = Router::build()
        .add_get("^/fine$".to_string(), TagHandler(200))
        .finish();
    match result {
        Err(BuildError::NotFoundHandlerMissing) => {},
        _ => panic!("expected a missing-not-found error"),
    }
}

#[test]
fn later_not_found_handler_overwrites_earlier() {
    let router = Router::build()
        .add_not_found(TagHandler(440))
        .add_not_found(TagHandler(441))
        .finish()
        .unwrap();
    let mut req = Request::new(Method::Get, "/anything".to_string(), Vec::new());
    let resp = router.dispatch(&mut req);
    assert_eq!(resp.status, Some(441));
}

#[test]
fn every_method_routes_independently() {
    let router = Router::build()
        .add_get("^/r$".to_string(), TagHandler(1))
        .add_post("^/r$".to_string(), TagHandler(2))
        .add_put("^/r$".to_string(), TagHandler(3))
        .add_patch("^/r$".to_string(), TagHandler(4))
        .add_delete("^/r$".to_string(), TagHandler(5))
        .add_head("^/r$".to_string(), TagHandler(6))
        .add_not_found(TagHandler(404))
        .finish()
        .unwrap();
    let methods = [
        (Method::Get, 1),
        (Method::Post, 2),
        (Method::Put, 3),
        (Method::Patch, 4),
        (Method::Delete, 5),
        (Method::Head, 6),
    ];
    for (m, tag) in methods {
        let mut req = Request::new(m, "/r".to_string(), Vec::new());
        let resp = router.dispatch(&mut req);
        assert_eq!(resp.status, Some(tag));
    }
}

#[test]
fn priority_wins_among_scattered_matches() {
    let router = Router::build()
        .add_get_with_priority("^/a$".to_string(), 5, TagHandler(230))
        .add_get_with_priority("^/b$".to_string(), 0, TagHandler(231))
        .add_get_with_priority("^/a.*$".to_string(), 1, TagHandler(232))
        .add_not_found(TagHandler(404))
        .finish()
        .unwrap();
    let mut req = Request::new(Method::Get, "/a".to_string(), Vec::new());
    let resp = router.dispatch(&mut req);
    assert_eq!(resp.status, Some(232));
}

#[test]
fn captures_come_from_the_path_alone() {
    let router = Router::build()
        .add_get("^/(\\d+)$".to_string(), TagHandler(200))
        .add_not_found(TagHandler(404))
        .finish()
        .unwrap();
    let mut req = Request::new(Method::Get, "/42?limit=9".to_string(), Vec::new());
    let resp = router.dispatch(&mut req);
    assert_eq!(resp.status, Some(200));
    let caps = req.captures().unwrap();
    assert_eq!(caps[1].as_deref(), Some("42"));
}

/// A handler that copies the request's `X-Token` header into an `X-Echo`
/// response header.
struct HeaderEcho;

impl InnerHandler for HeaderEcho {
    fn handle(&self, req: &Request) -> Response {
        let mut resp = Response::new();
        resp.set_status(200);
        if let Some((_, v)) = req.headers().iter().find(|(n, _)| n == "X-Token") {
            resp.set_header("X-Echo".to_string(), v.clone());
        }
        resp
    }
}

#[test]
fn handlers_see_request_headers() {
    let router = Router::build()
        .add_get("^/h$".to_string(), HeaderEcho)
        .add_not_found(HeaderEcho)
        .finish()
        .unwrap();
    let headers = vec![("X-Token".to_string(), "s3cr".to_string())];
    let mut req = Request::new(Method::Get, "/h".to_string(), headers);
    let resp = router.dispatch(&mut req);
    assert_eq!(resp.status, Some(200));
    assert!(resp.headers.iter().any(|(n, v)| n == "X-Echo" && v == "s3cr"));
}
