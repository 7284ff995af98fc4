//! The response side of the server: status codes, body content, and the
//! builder that renders a response to its exact wire bytes, optionally
//! compressing a text body with gzip.

use vstd::prelude::*;
use vstd::string::StringExecFns;
use vstd::utf8::encode_utf8;

use crate::text::{append_dec, dec_digits};

verus! {

/// A response status code with its fixed reason phrase.
#[derive(Clone, Copy, Debug, PartialEq, Eq, Structural)]
pub enum Status {
    OK,
    Created,
    NotFound,
}

pub open spec fn status_code(s: Status) -> nat {
    match s {
        Status::OK => 200,
        Status::Created => 201,
        Status::NotFound => 404,
    }
}

pub open spec fn status_reason(s: Status) -> Seq<char> {
    match s {
        Status::OK => "OK"@,
        Status::Created => "Created"@,
        Status::NotFound => "Not Found"@,
    }
}

impl Default for Status {
    fn default() -> (r: Status)
        ensures
            r == Status::OK,
    {
        Status::OK
    }
}

impl Status {
    /// The numeric status code.
    pub fn code(&self) -> (r: u16)
        ensures
            r == status_code(*self),
    {
        match self {
            Status::OK => 200,
            Status::Created => 201,
            Status::NotFound => 404,
        }
    }

    /// The reason phrase that follows the code on the status line.
    pub fn as_string(&self) -> (r: String)
        ensures
            r@ == status_reason(*self),
    {
        match self {
            Status::OK => "OK".to_owned(),
            Status::Created => "Created".to_owned(),
            Status::NotFound => "Not Found".to_owned(),
        }
    }
}

/// A request or response body: either text (`text/plain`) or raw bytes
/// (`application/octet-stream`).
#[derive(Debug, PartialEq)]
pub enum Content {
    Text(String),
    OctetStream(Vec<u8>),
}

pub enum ContentView {
    Text(Seq<char>),
    OctetStream(Seq<u8>),
}

impl View for Content {
    type V = ContentView;

    open spec fn view(&self) -> ContentView {
        match self {
            Content::Text(s) => ContentView::Text(s@),
            Content::OctetStream(b) => ContentView::OctetStream(b@),
        }
    }
}

#[derive(Clone, Copy, Debug, PartialEq, Eq, Structural)]
pub enum CompressionAlgorithms {
    GZIP,
}

/// A response under construction: status, optional body, and whether the
/// body is to be gzip-compressed when rendered.
pub struct Response {
    pub status: Status,
    pub body: Option<Content>,
    pub compression: Option<CompressionAlgorithms>,
}

pub struct ResponseView {
    pub status: Status,
    pub body: Option<ContentView>,
    pub compression: Option<CompressionAlgorithms>,
}

impl View for Response {
    type V = ResponseView;

    open spec fn view(&self) -> ResponseView {
        ResponseView {
            status: self.status,
            body: match self.body {
                Some(c) => Some(c.view()),
                None => None,
            },
            compression: self.compression,
        }
    }
}

/// The gzip stream that flate2's `GzEncoder` produces for `data` at the
/// default compression level.
pub uninterp spec fn gzip_of(data: Seq<u8>) -> Seq<u8>;

/// Relies on flate2's `write::GzEncoder` with `Compression::default()`:
/// the gzip stream it produces is a function of the input bytes alone
/// (the header is fixed — mtime 0, OS byte 255 — and deflate is
/// deterministic), and writing into an in-memory `Vec` sink cannot fail.
#[verifier::external_body]
fn gzip_compress(data: &[u8]) -> (r: Vec<u8>)
    ensures
        r@ == gzip_of(data@),
{
    let mut enc = flate2::write::GzEncoder::new(Vec::new(), flate2::Compression::default());
    std::io::Write::write_all(&mut enc, data).unwrap();
    enc.finish().unwrap()
}

/// The characters of the status line, `HTTP/1.1 <code> <reason>` and CRLF.
pub open spec fn status_line_chars(s: Status) -> Seq<char> {
    "HTTP/1.1 "@ + dec_digits(status_code(s)) + " "@ + status_reason(s) + "\r\n"@
}

/// The characters of the content headers a response emits: none without a
/// body; `Content-Encoding` only for a compressed text body; and a
/// `Content-Length` that counts the bytes actually sent.
pub open spec fn content_header_chars(r: ResponseView) -> Seq<char> {
    match r.body {
        None => Seq::<char>::empty(),
        Some(ContentView::Text(t)) => match r.compression {
            None => "Content-Type: text/plain\r\nContent-Length: "@ + dec_digits(
                encode_utf8(t).len(),
            ) + "\r\n"@,
            Some(CompressionAlgorithms::GZIP) => "Content-Encoding: gzip\r\nContent-Type: text/plain\r\nContent-Length: "@
                + dec_digits(gzip_of(encode_utf8(t)).len()) + "\r\n"@,
        },
        Some(ContentView::OctetStream(b)) => "Content-Type: application/octet-stream\r\nContent-Length: "@
            + dec_digits(b.len()) + "\r\n"@,
    }
}

/// The bytes sent after the blank line: the body, compressed when the
/// response carries a text body marked for gzip.  Compression is never
/// applied to an octet-stream body.
pub open spec fn spec_body_bytes(r: ResponseView) -> Seq<u8> {
    match r.body {
        None => Seq::<u8>::empty(),
        Some(ContentView::Text(t)) => match r.compression {
            None => encode_utf8(t),
            Some(CompressionAlgorithms::GZIP) => gzip_of(encode_utf8(t)),
        },
        Some(ContentView::OctetStream(b)) => b,
    }
}

/// The full wire rendering: status line, content headers, a blank line,
/// then the body bytes.
pub open spec fn spec_render(r: ResponseView) -> Seq<u8> {
    encode_utf8(status_line_chars(r.status) + content_header_chars(r) + "\r\n"@)
        + spec_body_bytes(r)
}

impl Response {
    /// A fresh response: status OK, no body, no compression.
    pub fn new() -> (r: Response)
        ensures
            r@ == (ResponseView { status: Status::OK, body: None, compression: None }),
    {
        Response { status: Status::default(), body: None, compression: None }
    }

    pub fn set_body(&mut self, body: Content)
        ensures
            final(self)@ == (ResponseView { body: Some(body@), ..old(self)@ }),
    {
        self.body = Some(body);
    }

    pub fn set_status(&mut self, status: Status)
        ensures
            final(self)@ == (ResponseView { status: status, ..old(self)@ }),
    {
        self.status = status;
    }

    pub fn set_compression(&mut self, compression: CompressionAlgorithms)
        ensures
            final(self)@ == (ResponseView { compression: Some(compression), ..old(self)@ }),
    {
        self.compression = Some(compression);
    }

    /// Renders the response to its exact wire bytes.
    pub fn as_bytes(&self) -> (r: Vec<u8>)
        ensures
            r@ == spec_render(self@),
    {
        let mut head = String::new();
        head.append("HTTP/1.1 ");
        append_dec(&mut head, self.status.code() as usize);
        head.append(" ");
        let reason = self.status.as_string();
        head.append(reason.as_str());
        head.append("\r\n");
        assert(head@ =~= status_line_chars(self.status));

        let mut content: Vec<u8> = Vec::new();
        match (&self.body, &self.compression) {
            (Some(Content::Text(t)), None) => {
                content.extend_from_slice(t.as_str().as_bytes());
                head.append("Content-Type: text/plain\r\nContent-Length: ");
                append_dec(&mut head, content.len());
                head.append("\r\n");
                assert(head@ =~= status_line_chars(self.status) + content_header_chars(self@));
                assert(content@ =~= spec_body_bytes(self@));
            },
            (Some(Content::Text(t)), Some(CompressionAlgorithms::GZIP)) => {
                let mut z = gzip_compress(t.as_str().as_bytes());
                head.append("Content-Encoding: gzip\r\nContent-Type: text/plain\r\nContent-Length: ");
                append_dec(&mut head, z.len());
                head.append("\r\n");
                content.append(&mut z);
                assert(head@ =~= status_line_chars(self.status) + content_header_chars(self@));
                assert(content@ =~= spec_body_bytes(self@));
            },
            (Some(Content::OctetStream(b)), _) => {
                head.append("Content-Type: application/octet-stream\r\nContent-Length: ");
                append_dec(&mut head, b.len());
                head.append("\r\n");
                content.extend_from_slice(b.as_slice());
                assert(head@ =~= status_line_chars(self.status) + content_header_chars(self@));
                assert(content@ =~= spec_body_bytes(self@));
            },
            (None, _) => {
                assert(head@ =~= status_line_chars(self.status) + content_header_chars(self@));
                assert(content@ =~= spec_body_bytes(self@));
            },
        }
        assert(head@ == status_line_chars(self.status) + content_header_chars(self@));
        assert(content@ == spec_body_bytes(self@));

        head.append("\r\n");
        let mut out: Vec<u8> = Vec::new();
        out.extend_from_slice(head.as_str().as_bytes());
        out.append(&mut content);
        proof {
            assert(head@ =~= status_line_chars(self.status) + content_header_chars(self@)
                + "\r\n"@);
            assert(out@ =~= spec_render(self@));
        }
        out
    }
}

} // verus!
