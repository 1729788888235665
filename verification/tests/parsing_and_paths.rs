use tinyserve::paths::{contains_dotdot, is_within_root, strip_query_fragment, target_rel_path};
use tinyserve::request::{method_allowed, parse_request_line};

#[test]
fn request_line_splits_into_three_tokens() {
    let r = parse_request_line("GET /index.html HTTP/1.1\r\nHost: x\r\n\r\n");
    assert_eq!(r.method, "GET");
    assert_eq!(r.target, "/index.html");
    assert_eq!(r.version, "HTTP/1.1");
}

#[test]
fn missing_tokens_become_empty_strings() {
    let r = parse_request_line("GET\r\n\r\n");
    assert_eq!(r.method, "GET");
    assert_eq!(r.target, "");
    assert_eq!(r.version, "");

    let r = parse_request_line("");
    assert_eq!(r.method, "");
    assert_eq!(r.target, "");
    assert_eq!(r.version, "");
}

#[test]
fn extra_blanks_are_skipped() {
    let r = parse_request_line("HEAD   /a\t HTTP/1.0\nrest");
    assert_eq!(r.method, "HEAD");
    assert_eq!(r.target, "/a");
    assert_eq!(r.version, "HTTP/1.0");
}

#[test]
fn only_get_and_head_are_allowed() {
    assert!(method_allowed("GET"));
    assert!(method_allowed("HEAD"));
    assert!(!method_allowed("POST"));
    assert!(!method_allowed("get"));
    assert!(!method_allowed(""));
}

#[test]
fn query_and_fragment_are_stripped() {
    assert_eq!(strip_query_fragment("/a?b=1#c"), "/a");
    assert_eq!(strip_query_fragment("/a#c?b"), "/a");
    assert_eq!(strip_query_fragment("/plain"), "/plain");
    assert_eq!(strip_query_fragment("?x"), "");
}

#[test]
fn dotdot_is_found_anywhere() {
    assert!(contains_dotdot("/../../etc/passwd"));
    assert!(contains_dotdot("a.."));
    assert!(contains_dotdot("..b"));
    assert!(!contains_dotdot("/a.b/c.d"));
    assert!(!contains_dotdot("."));
    assert!(!contains_dotdot(""));
}

#[test]
fn root_maps_to_default_resource() {
    assert_eq!(target_rel_path("/"), Some(String::from("index.html")));
}

#[test]
fn leading_slash_is_stripped() {
    assert_eq!(target_rel_path("/foo/bar.html"), Some(String::from("foo/bar.html")));
}

#[test]
fn empty_target_is_refused() {
    assert_eq!(target_rel_path(""), None);
}

#[test]
fn within_root_accepts_the_root_and_what_lies_below() {
    assert!(is_within_root("/srv/www", "/srv/www"));
    assert!(is_within_root("/srv/www/a/b.html", "/srv/www"));
    assert!(is_within_root("/etc/passwd", "/"));
}

#[test]
fn within_root_rejects_siblings_and_escapes() {
    assert!(!is_within_root("/srv/wwwevil/a", "/srv/www"));
    assert!(!is_within_root("/etc/passwd", "/srv/www"));
    assert!(!is_within_root("/srv", "/srv/www"));
}
