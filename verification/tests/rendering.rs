use std::io::Read;

use flate2::read::GzDecoder;
use mini_http::response::{CompressionAlgorithms, Content, Response, Status};

#[test]
fn test_response_as_string() {
    let mut response = Response::new();
    response.set_status(Status::OK);
    assert_eq!(
        Response::new().as_bytes(),
        "HTTP/1.1 200 OK\r\n\r\n".to_owned().as_bytes()
    );

    let mut response = Response::new();
    response.set_status(Status::NotFound);
    assert_eq!(
        response.as_bytes(),
        "HTTP/1.1 404 Not Found\r\n\r\n".to_owned().as_bytes()
    );

    let mut res = Response::new();
    res.set_status(Status::OK);
    res.set_body(Content::Text("toto".to_owned()));
    assert_eq!(
        res.as_bytes(),
        "HTTP/1.1 200 OK\r\nContent-Type: text/plain\r\nContent-Length: 4\r\n\r\ntoto"
            .to_owned()
            .as_bytes()
    );

    let mut res = Response::new();
    res.set_status(Status::OK);
    res.set_body(Content::OctetStream("toto".as_bytes().to_vec()));
    assert_eq!(
        res.as_bytes(),
        "HTTP/1.1 200 OK\r\nContent-Type: application/octet-stream\r\nContent-Length: 4\r\n\r\ntoto"
            .to_owned()
            .as_bytes()
    )
}

#[test]
fn test_created_response_render() {
    let mut res = Response::new();
    res.set_status(Status::Created);
    assert_eq!(
        res.as_bytes(),
        "HTTP/1.1 201 Created\r\n\r\n".to_owned().as_bytes()
    );
}

#[test]
fn test_status_reason_phrases() {
    assert_eq!(Status::OK.as_string(), "OK".to_string());
    assert_eq!(Status::Created.as_string(), "Created".to_string());
    assert_eq!(Status::NotFound.as_string(), "Not Found".to_string());
    assert_eq!(Status::OK.code(), 200);
    assert_eq!(Status::Created.code(), 201);
    assert_eq!(Status::NotFound.code(), 404);
}

fn split_head_and_body(wire: &[u8]) -> (String, Vec<u8>) {
    let sep = b"\r\n\r\n";
    let pos = wire
        .windows(sep.len())
        .position(|w| w == sep)
        .expect("a rendered response has a blank line");
    let head = String::from_utf8(wire[..pos].to_vec()).expect("the head is text");
    (head, wire[pos + sep.len()..].to_vec())
}

#[test]
fn test_gzip_text_response_round_trip() {
    let text = "hello hello hello hello hello";
    let mut res = Response::new();
    res.set_body(Content::Text(text.to_owned()));
    res.set_compression(CompressionAlgorithms::GZIP);
    let wire = res.as_bytes();

    let (head, body) = split_head_and_body(&wire);
    assert!(head.starts_with("HTTP/1.1 200 OK\r\n"));
    assert!(head.contains("Content-Encoding: gzip\r\n"));
    assert!(head.contains("Content-Type: text/plain\r\n"));
    // Content-Length counts the compressed bytes, not the original text.
    assert!(head.contains(&format!("Content-Length: {}", body.len())));
    assert_ne!(body, text.as_bytes());

    let mut decoder = GzDecoder::new(&body[..]);
    let mut decompressed = String::new();
    decoder
        .read_to_string(&mut decompressed)
        .expect("the body is a gzip stream");
    assert_eq!(decompressed, text);
}

#[test]
fn test_gzip_compression_ignored_for_octet_stream() {
    let mut res = Response::new();
    res.set_body(Content::OctetStream(vec![1, 2, 3]));
    res.set_compression(CompressionAlgorithms::GZIP);
    let wire = res.as_bytes();
    let (head, body) = split_head_and_body(&wire);
    assert!(head.contains("Content-Type: application/octet-stream\r\n"));
    assert!(!head.contains("Content-Encoding"));
    assert_eq!(body, vec![1, 2, 3]);
}

#[test]
fn test_gzip_compression_no_op_without_body() {
    let mut res = Response::new();
    res.set_status(Status::NotFound);
    res.set_compression(CompressionAlgorithms::GZIP);
    assert_eq!(
        res.as_bytes(),
        "HTTP/1.1 404 Not Found\r\n\r\n".to_owned().as_bytes()
    );
}

#[test]
fn test_content_length_counts_bytes_not_chars() {
    let mut res = Response::new();
    res.set_body(Content::Text("héllo".to_owned()));
    let wire = res.as_bytes();
    let (head, body) = split_head_and_body(&wire);
    // 'é' takes two bytes in UTF-8.
    assert!(head.contains("Content-Length: 6"));
    assert_eq!(body, "héllo".as_bytes());
}
