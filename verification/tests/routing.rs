use mini_http::request::Request;
use mini_http::response::Response;
use mini_http::router::{
    dispatch, file_read_response, file_write_response, negotiate_compression, RouteAction,
};

fn parse(raw: &str) -> Request {
    Request::from_buffer(raw.as_bytes()).expect("the request parses")
}

fn reply_of(action: RouteAction) -> Response {
    match action {
        RouteAction::Reply(resp) => resp,
        _ => panic!("expected a finished reply"),
    }
}

#[test]
fn test_root_route() {
    let req = parse("GET / HTTP/1.1\r\nHost: localhost:4221\r\n\r\n");
    let resp = reply_of(dispatch(&req, false));
    assert_eq!(resp.as_bytes(), "HTTP/1.1 200 OK\r\n\r\n".as_bytes());
}

#[test]
fn test_echo_route() {
    let req = parse("GET /echo/abc HTTP/1.1\r\nHost: localhost:4221\r\n\r\n");
    let resp = reply_of(dispatch(&req, false));
    assert_eq!(
        resp.as_bytes(),
        "HTTP/1.1 200 OK\r\nContent-Type: text/plain\r\nContent-Length: 3\r\n\r\nabc".as_bytes()
    );
}

#[test]
fn test_echo_route_keeps_embedded_slashes() {
    let req = parse("GET /echo/a/b/c HTTP/1.1\r\n\r\n");
    let resp = reply_of(dispatch(&req, true));
    assert_eq!(
        resp.as_bytes(),
        "HTTP/1.1 200 OK\r\nContent-Type: text/plain\r\nContent-Length: 5\r\n\r\na/b/c".as_bytes()
    );
}

#[test]
fn test_user_agent_route() {
    let req = parse("GET /user-agent HTTP/1.1\r\nUser-Agent: curl/7.64.1\r\n\r\n");
    let resp = reply_of(dispatch(&req, false));
    assert_eq!(
        resp.as_bytes(),
        "HTTP/1.1 200 OK\r\nContent-Type: text/plain\r\nContent-Length: 11\r\n\r\ncurl/7.64.1"
            .as_bytes()
    );
}

#[test]
fn test_user_agent_route_without_header() {
    let req = parse("GET /user-agent HTTP/1.1\r\nHost: localhost:4221\r\n\r\n");
    let resp = reply_of(dispatch(&req, false));
    assert_eq!(resp.as_bytes(), "HTTP/1.1 404 Not Found\r\n\r\n".as_bytes());
}

#[test]
fn test_unmatched_route_not_found() {
    let req = parse("GET /nothing-here HTTP/1.1\r\n\r\n");
    let resp = reply_of(dispatch(&req, true));
    assert_eq!(resp.as_bytes(), "HTTP/1.1 404 Not Found\r\n\r\n".as_bytes());
}

#[test]
fn test_files_round_trip() {
    // POST hands the body bytes and the file name to storage …
    let post = parse(
        "POST /files/x HTTP/1.1\r\nContent-Type: application/octet-stream\r\nContent-Length: 5\r\n\r\n12345",
    );
    let stored: Vec<u8> = match dispatch(&post, true) {
        RouteAction::WriteFile(name, bytes) => {
            assert_eq!(name, "x".to_string());
            bytes
        }
        _ => panic!("expected a storage write"),
    };
    let created = file_write_response(true).expect("a successful write gets a reply");
    assert_eq!(created.as_bytes(), "HTTP/1.1 201 Created\r\n\r\n".as_bytes());

    // … and GET returns them byte for byte.
    let get = parse("GET /files/x HTTP/1.1\r\n\r\n");
    match dispatch(&get, true) {
        RouteAction::ReadFile(name) => assert_eq!(name, "x".to_string()),
        _ => panic!("expected a storage read"),
    }
    let resp = file_read_response(Some(stored));
    assert_eq!(
        resp.as_bytes(),
        "HTTP/1.1 200 OK\r\nContent-Type: application/octet-stream\r\nContent-Length: 5\r\n\r\n12345"
            .as_bytes()
    );
}

#[test]
fn test_missing_file_not_found() {
    let req = parse("GET /files/missing HTTP/1.1\r\n\r\n");
    match dispatch(&req, true) {
        RouteAction::ReadFile(name) => assert_eq!(name, "missing".to_string()),
        _ => panic!("expected a storage read"),
    }
    let resp = file_read_response(None);
    assert_eq!(resp.as_bytes(), "HTTP/1.1 404 Not Found\r\n\r\n".as_bytes());
}

#[test]
fn test_get_files_without_directory_is_not_found() {
    let req = parse("GET /files/x HTTP/1.1\r\n\r\n");
    let resp = reply_of(dispatch(&req, false));
    assert_eq!(resp.as_bytes(), "HTTP/1.1 404 Not Found\r\n\r\n".as_bytes());
}

#[test]
fn test_post_files_without_directory_is_dropped() {
    let req = parse(
        "POST /files/x HTTP/1.1\r\nContent-Type: application/octet-stream\r\n\r\nabc",
    );
    assert!(matches!(dispatch(&req, false), RouteAction::NoReply));
}

#[test]
fn test_post_files_with_wrong_body_is_dropped() {
    let req = parse("POST /files/x HTTP/1.1\r\nContent-Type: text/plain\r\n\r\nabc");
    assert!(matches!(dispatch(&req, true), RouteAction::NoReply));
    let req = parse("POST /files/x HTTP/1.1\r\n\r\n");
    assert!(matches!(dispatch(&req, true), RouteAction::NoReply));
}

#[test]
fn test_failed_write_gets_no_reply() {
    assert!(file_write_response(false).is_none());
}

#[test]
fn test_negotiation_marks_gzip() {
    let req = parse("GET /echo/abc HTTP/1.1\r\nAccept-Encoding: deflate, gzip, br\r\n\r\n");
    let mut resp = reply_of(dispatch(&req, false));
    negotiate_compression(&req, &mut resp);
    let wire = resp.as_bytes();
    let head = String::from_utf8(wire[..wire.len().min(64)].to_vec()).unwrap_or_default();
    assert!(head.contains("Content-Encoding: gzip\r\n"));
}

#[test]
fn test_negotiation_leaves_others_alone() {
    let req = parse("GET /echo/abc HTTP/1.1\r\nAccept-Encoding: deflate, br\r\n\r\n");
    let mut resp = reply_of(dispatch(&req, false));
    negotiate_compression(&req, &mut resp);
    assert_eq!(
        resp.as_bytes(),
        "HTTP/1.1 200 OK\r\nContent-Type: text/plain\r\nContent-Length: 3\r\n\r\nabc".as_bytes()
    );
    let req = parse("GET /echo/abc HTTP/1.1\r\nHost: localhost:4221\r\n\r\n");
    let mut resp = reply_of(dispatch(&req, false));
    negotiate_compression(&req, &mut resp);
    assert_eq!(
        resp.as_bytes(),
        "HTTP/1.1 200 OK\r\nContent-Type: text/plain\r\nContent-Length: 3\r\n\r\nabc".as_bytes()
    );
}

#[test]
fn test_negotiation_applies_to_not_found_routes() {
    let req = parse("GET /nothing HTTP/1.1\r\nAccept-Encoding: gzip\r\n\r\n");
    let mut resp = reply_of(dispatch(&req, true));
    negotiate_compression(&req, &mut resp);
    // There is no body, so marking the reply for gzip changes nothing.
    assert_eq!(resp.as_bytes(), "HTTP/1.1 404 Not Found\r\n\r\n".as_bytes());
}
