use reroute::method::Method;
use reroute::request::Request;

#[test]
fn path_and_query_split_at_first_question_mark() {
    let req = Request::new(Method::Get, "/users/7?page=2&sort=asc".to_string(), Vec::new());
    assert_eq!(req.path(), "/users/7");
    assert_eq!(req.query(), Some("page=2&sort=asc"));
}

#[test]
fn uri_without_query_has_none() {
    let req = Request::new(Method::Get, "/users/7".to_string(), Vec::new());
    assert_eq!(req.path(), "/users/7");
    assert_eq!(req.query(), None);
}

#[test]
fn later_question_marks_belong_to_the_query() {
    let req = Request::new(Method::Get, "/a?b?c".to_string(), Vec::new());
    assert_eq!(req.path(), "/a");
    assert_eq!(req.query(), Some("b?c"));
}

#[test]
fn empty_query_after_question_mark() {
    let req = Request::new(Method::Get, "/a?".to_string(), Vec::new());
    assert_eq!(req.path(), "/a");
    assert_eq!(req.query(), Some(""));
}

#[test]
fn path_and_query_are_idempotent() {
    let req = Request::new(Method::Post, "/p?q=1".to_string(), Vec::new());
    assert_eq!(req.path(), req.path());
    assert_eq!(req.query(), req.query());
    assert_eq!(req.path(), "/p");
    assert_eq!(req.query(), Some("q=1"));
    assert!(!req.path().contains('?'));
}

#[test]
fn request_accessors_report_what_it_was_created_with() {
    let req = Request::new(Method::Delete, "/x?y".to_string(), Vec::new());
    assert_eq!(req.method(), Method::Delete);
    assert_eq!(req.uri(), "/x?y");
    assert!(req.captures().is_none());
}

#[test]
fn request_carries_its_headers() {
    let headers = vec![
        ("Accept".to_string(), "text/plain".to_string()),
        ("X-Token".to_string(), "abc".to_string()),
    ];
    let req = Request::new(Method::Get, "/h".to_string(), headers.clone());
    assert_eq!(req.headers(), &headers);
}
