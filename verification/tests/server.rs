use static_server::HttpStatus;
use static_server::Request;
use static_server::build_response;
use static_server::dec_string;
use static_server::fallback_target;
use static_server::get_response;
use static_server::is_get;
use static_server::not_allowed_response;
use static_server::parse_request;
use static_server::parse_request_bytes;
use static_server::primary_target;
use static_server::respond;
use static_server::status_of_contents;
use static_server::strip_slash;

fn parsed(text: &str) -> Request {
    parse_request(text).expect("request line should have two tokens")
}

#[test]
fn parse_simple_get() {
    let req = parsed("GET / HTTP/1.1\r\n\r\n");
    assert_eq!(req.method, "GET");
    assert_eq!(req.path, "/");
}

#[test]
fn parse_keeps_carriage_return_without_version_token() {
    // With no third token, the carriage return stays glued to the path.
    let req = parsed("GET /x\r\n");
    assert_eq!(req.method, "GET");
    assert_eq!(req.path, "/x\r");
}

#[test]
fn parse_without_space_is_rejected() {
    assert!(parse_request("GET\r\n\r\n").is_none());
    assert!(parse_request("").is_none());
    assert!(parse_request("\n\n").is_none());
}

#[test]
fn parse_trailing_space_gives_carriage_return_path() {
    let req = parsed("GET \r\n");
    assert_eq!(req.method, "GET");
    assert_eq!(req.path, "\r");
}

#[test]
fn parse_double_space_gives_empty_path() {
    let req = parsed("GET  HTTP/1.1\r\n\r\n");
    assert_eq!(req.method, "GET");
    assert_eq!(req.path, "");
}

#[test]
fn parse_bytes_with_trailing_zeros() {
    let mut buf = [0u8; 1024];
    let head = b"GET /about HTTP/1.1\r\n\r\n";
    buf[..head.len()].copy_from_slice(head);
    let req = parse_request_bytes(&buf).expect("well-formed request");
    assert_eq!(req.method, "GET");
    assert_eq!(req.path, "/about");
}

#[test]
fn parse_bytes_substitutes_invalid_utf8() {
    let req = parse_request_bytes(b"GET\xff / HTTP/1.1\r\n\r\n").expect("well-formed request");
    assert_eq!(req.method, "GET\u{fffd}");
    assert!(!is_get(&req.method));
}

#[test]
fn method_check_is_exact() {
    assert!(is_get("GET"));
    assert!(!is_get("get"));
    assert!(!is_get("POST"));
    assert!(!is_get("GETX"));
}

#[test]
fn root_path_targets() {
    // The root folder is glued on as given: a bare "." makes the primary
    // target a sibling file, and the fallback a double-slash path.
    assert_eq!(primary_target(".", "/"), ".index.html");
    assert_eq!(fallback_target(".", "/"), ".//index.html");
    assert_eq!(primary_target("./", "/"), "./index.html");
}

#[test]
fn plain_path_targets() {
    assert_eq!(primary_target(".", "/about"), "./about.html");
    assert_eq!(fallback_target(".", "/about"), "./about/index.html");
    // The first slash of the path is the one removed, so deeper slashes stay.
    assert_eq!(primary_target("/srv/www", "/a/b"), "/srv/www/a/b.html");
}

#[test]
fn strip_removes_only_first_slash() {
    assert_eq!(strip_slash("/about"), "about");
    assert_eq!(strip_slash("a/b/c"), "ab/c");
    assert_eq!(strip_slash("plain"), "plain");
    assert_eq!(strip_slash("/"), "");
}

#[test]
fn decimal_rendering() {
    assert_eq!(dec_string(0), "0");
    assert_eq!(dec_string(9), "9");
    assert_eq!(dec_string(10), "10");
    assert_eq!(dec_string(1024), "1024");
    assert_eq!(dec_string(18446744073709551615), "18446744073709551615");
}

#[test]
fn decimal_round_trip() {
    for n in [0u64, 1, 7, 10, 99, 100, 1023, 65536, 4294967296, u64::MAX] {
        assert_eq!(dec_string(n).parse::<u64>().unwrap(), n);
    }
}

#[test]
fn status_codes_and_messages() {
    assert_eq!(HttpStatus::Success.code(), 200);
    assert_eq!(HttpStatus::NotFound.code(), 404);
    assert_eq!(HttpStatus::MethodNotAllowed.code(), 405);
    assert_eq!(HttpStatus::Success.full_msg(), "200 OK");
    assert_eq!(HttpStatus::NotFound.full_msg(), "404 NOT FOUND");
    assert_eq!(HttpStatus::MethodNotAllowed.full_msg(), "405 NOT ALLOWED");
}

#[test]
fn status_inferred_from_contents() {
    assert_eq!(status_of_contents("Not Found"), HttpStatus::NotFound);
    assert_eq!(status_of_contents("not found"), HttpStatus::Success);
    assert_eq!(status_of_contents(""), HttpStatus::Success);
    assert_eq!(status_of_contents("Not Found "), HttpStatus::Success);
}

#[test]
fn served_index_page() {
    let (response, status) = respond("GET", Some("<h1>Hi</h1>".to_string()), None);
    assert_eq!(status, HttpStatus::Success);
    assert_eq!(response, "HTTP1/1 200 OK\r\nContent-Length: 11\r\n\r\n<h1>Hi</h1>");
}

#[test]
fn served_from_fallback() {
    let (response, status) = get_response(None, Some("<p>deep</p>".to_string()));
    assert_eq!(status, HttpStatus::Success);
    assert_eq!(response, "HTTP1/1 200 OK\r\nContent-Length: 11\r\n\r\n<p>deep</p>");
}

#[test]
fn missing_page_is_not_found() {
    let (response, status) = respond("GET", None, None);
    assert_eq!(status, HttpStatus::NotFound);
    assert_eq!(response, "HTTP1/1 404 NOT FOUND\r\nContent-Length: 9\r\n\r\nNot Found");
}

#[test]
fn post_is_not_allowed() {
    let (response, status) = respond("POST", None, None);
    assert_eq!(status, HttpStatus::MethodNotAllowed);
    assert_eq!(response, "HTTP1/1 405 NOT ALLOWED\r\n\r\n");
}

#[test]
fn non_get_ignores_contents() {
    let (response, status) = respond("HEAD", Some("<h1>Hi</h1>".to_string()), None);
    assert_eq!(status, HttpStatus::MethodNotAllowed);
    assert_eq!(response, "HTTP1/1 405 NOT ALLOWED\r\n\r\n");
    let (response, _) = respond("PUT", None, Some("x".to_string()));
    assert_eq!(response, "HTTP1/1 405 NOT ALLOWED\r\n\r\n");
}

#[test]
fn not_found_collision_defect() {
    // A real file whose whole text is `Not Found` is reported as missing.
    let (response, status) = respond("GET", Some("Not Found".to_string()), None);
    assert_eq!(status, HttpStatus::NotFound);
    assert_eq!(response, "HTTP1/1 404 NOT FOUND\r\nContent-Length: 9\r\n\r\nNot Found");
    let (_, status) = get_response(None, Some("Not Found".to_string()));
    assert_eq!(status, HttpStatus::NotFound);
}

#[test]
fn content_length_counts_bytes_not_chars() {
    let body = "h\u{e9}llo";
    assert_eq!(body.chars().count(), 5);
    let response = build_response(HttpStatus::Success, body);
    assert_eq!(response, format!("HTTP1/1 200 OK\r\nContent-Length: 6\r\n\r\n{}", body));
}

#[test]
fn empty_body_response() {
    let response = build_response(HttpStatus::Success, "");
    assert_eq!(response, "HTTP1/1 200 OK\r\nContent-Length: 0\r\n\r\n");
}

#[test]
fn bare_not_allowed_response() {
    assert_eq!(not_allowed_response(), "HTTP1/1 405 NOT ALLOWED\r\n\r\n");
}

#[test]
fn full_pipeline_for_one_request() {
    let text = "GET /about HTTP/1.1\r\nHost: localhost\r\n\r\n";
    let req = parsed(text);
    assert!(is_get(&req.method));
    assert_eq!(primary_target("site", &req.path), "site/about.html");
    assert_eq!(fallback_target("site", &req.path), "site/about/index.html");
    let (response, status) = respond(&req.method, None, Some("fallback page".to_string()));
    assert_eq!(status.code(), 200);
    assert_eq!(response, "HTTP1/1 200 OK\r\nContent-Length: 13\r\n\r\nfallback page");
}
