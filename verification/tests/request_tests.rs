use schedules_direct::request::{CallRequest, Method};

#[test]
fn new_request_has_no_header_and_no_body() {
    let r = CallRequest::new(Method::Get, "https://example.org/x".to_string());
    assert_eq!(r.method(), Method::Get);
    assert_eq!(r.url(), "https://example.org/x");
    assert_eq!(r.body(), None);
    assert!(r.headers().is_empty());
    assert_eq!(r.header("token"), None);
}

#[test]
fn with_body_sets_the_body_only() {
    let r = CallRequest::new(Method::Post, "u".to_string()).with_body("[1]".to_string());
    assert_eq!(r.method(), Method::Post);
    assert_eq!(r.url(), "u");
    assert_eq!(r.body(), Some("[1]"));
    assert!(r.headers().is_empty());
}

#[test]
fn set_header_adds_a_header() {
    let mut r = CallRequest::new(Method::Put, "u".to_string());
    r.set_header("token", "abc");
    r.set_header("Accept", "application/json");
    assert_eq!(r.header("token"), Some("abc"));
    assert_eq!(r.header("Accept"), Some("application/json"));
    assert_eq!(r.header("accept"), None);
    assert_eq!(r.headers().len(), 2);
    assert_eq!(r.headers()[0].name, "token");
    assert_eq!(r.headers()[1].name, "Accept");
}

#[test]
fn set_header_replaces_the_value_under_a_name() {
    let mut r = CallRequest::new(Method::Delete, "u".to_string());
    r.set_header("a", "1");
    r.set_header("token", "old");
    r.set_header("b", "2");
    r.set_header("token", "new");
    assert_eq!(r.headers().len(), 3);
    assert_eq!(r.header("token"), Some("new"));
    assert_eq!(r.header("a"), Some("1"));
    assert_eq!(r.header("b"), Some("2"));
    let names: Vec<&str> = r.headers().iter().map(|h| h.name.as_str()).collect();
    assert_eq!(names, vec!["a", "token", "b"]);
    assert_eq!(r.method(), Method::Delete);
    assert_eq!(r.url(), "u");
}
