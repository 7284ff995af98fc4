//! The route dispatcher and the compression negotiation.
//!
//! Dispatch is pure: it inspects the request and either builds the reply
//! outright or asks the caller to perform the one storage operation the
//! route needs, handing back a file name (and bytes, for a write).  The
//! caller feeds the storage outcome to [`file_read_response`] or
//! [`file_write_response`] to finish the reply.

use vstd::prelude::*;
use vstd::string::StrSliceExecFns;

use crate::request::{Request, RequestView, Verb};
use crate::response::{
    CompressionAlgorithms, Content, ContentView, Response, ResponseView, Status,
};
use crate::text::{contains_sub, find_sub_str, is_prefix_of, starts_with_str, str_eq};

verus! {

/// What the dispatcher decides for a request: a finished reply, a storage
/// operation still to be performed, or no reply at all (the connection is
/// closed without writing anything).
pub enum RouteAction {
    Reply(Response),
    ReadFile(String),
    WriteFile(String, Vec<u8>),
    NoReply,
}

pub enum RouteActionView {
    Reply(ResponseView),
    ReadFile(Seq<char>),
    WriteFile(Seq<char>, Seq<u8>),
    NoReply,
}

impl View for RouteAction {
    type V = RouteActionView;

    open spec fn view(&self) -> RouteActionView {
        match self {
            RouteAction::Reply(resp) => RouteActionView::Reply(resp@),
            RouteAction::ReadFile(name) => RouteActionView::ReadFile(name@),
            RouteAction::WriteFile(name, bytes) => RouteActionView::WriteFile(name@, bytes@),
            RouteAction::NoReply => RouteActionView::NoReply,
        }
    }
}

pub open spec fn ok_response(body: Option<ContentView>) -> ResponseView {
    ResponseView { status: Status::OK, body: body, compression: None }
}

pub open spec fn not_found_response() -> ResponseView {
    ResponseView { status: Status::NotFound, body: None, compression: None }
}

pub open spec fn created_response() -> ResponseView {
    ResponseView { status: Status::Created, body: None, compression: None }
}

/// The route table, first match wins:
///
/// * `GET /` — OK with no body.
/// * `GET /echo/{value}` — OK, text body `{value}`, the literal suffix.
/// * `GET /user-agent` — OK with the `User-Agent` value, or NotFound
///   without the header.
/// * `GET /files/{name}` — read `{name}` from storage; NotFound when no
///   storage directory is configured.
/// * `POST /files/{name}` — write the octet-stream body to `{name}`;
///   without a directory or a correctly typed body the connection is
///   dropped with no reply.
/// * anything else — NotFound with no body.
pub open spec fn spec_dispatch(req: RequestView, dir_configured: bool) -> RouteActionView {
    if req.verb == Verb::GET && req.target == "/"@ {
        RouteActionView::Reply(ok_response(None))
    } else if req.verb == Verb::GET && is_prefix_of("/echo/"@, req.target) {
        RouteActionView::Reply(
            ok_response(Some(ContentView::Text(req.target.skip("/echo/"@.len() as int)))),
        )
    } else if req.verb == Verb::GET && req.target == "/user-agent"@ {
        if req.headers.contains_key("User-Agent"@) {
            RouteActionView::Reply(ok_response(Some(ContentView::Text(req.headers["User-Agent"@]))))
        } else {
            RouteActionView::Reply(not_found_response())
        }
    } else if req.verb == Verb::GET && is_prefix_of("/files/"@, req.target) {
        if dir_configured {
            RouteActionView::ReadFile(req.target.skip("/files/"@.len() as int))
        } else {
            RouteActionView::Reply(not_found_response())
        }
    } else if req.verb == Verb::POST && is_prefix_of("/files/"@, req.target) {
        if dir_configured {
            match req.content {
                Some(ContentView::OctetStream(b)) => RouteActionView::WriteFile(
                    req.target.skip("/files/"@.len() as int),
                    b,
                ),
                _ => RouteActionView::NoReply,
            }
        } else {
            RouteActionView::NoReply
        }
    } else {
        RouteActionView::Reply(not_found_response())
    }
}

fn not_found() -> (r: Response)
    ensures
        r@ == not_found_response(),
{
    let mut r = Response::new();
    r.set_status(Status::NotFound);
    r
}

/// Selects the route for a request, exactly as [`spec_dispatch`] says.
pub fn dispatch(req: &Request, dir_configured: bool) -> (r: RouteAction)
    ensures
        r@ == spec_dispatch(req@, dir_configured),
{
    let t = req.target.as_str();
    let tlen = t.unicode_len();
    match req.verb {
        Verb::GET => {
            if str_eq(t, "/") {
                RouteAction::Reply(Response::new())
            } else if starts_with_str(t, "/echo/") {
                let plen = "/echo/".unicode_len();
                let suffix = t.substring_char(plen, tlen).to_owned();
                let mut resp = Response::new();
                resp.set_body(Content::Text(suffix));
                RouteAction::Reply(resp)
            } else if str_eq(t, "/user-agent") {
                match req.headers.get("User-Agent") {
                    Some(v) => {
                        let mut resp = Response::new();
                        resp.set_body(Content::Text(v.clone()));
                        RouteAction::Reply(resp)
                    },
                    None => RouteAction::Reply(not_found()),
                }
            } else if starts_with_str(t, "/files/") {
                if dir_configured {
                    let plen = "/files/".unicode_len();
                    RouteAction::ReadFile(t.substring_char(plen, tlen).to_owned())
                } else {
                    RouteAction::Reply(not_found())
                }
            } else {
                RouteAction::Reply(not_found())
            }
        },
        Verb::POST => {
            if starts_with_str(t, "/files/") {
                if dir_configured {
                    match &req.content {
                        Some(Content::OctetStream(b)) => {
                            let plen = "/files/".unicode_len();
                            let mut bytes: Vec<u8> = Vec::new();
                            bytes.extend_from_slice(b.as_slice());
                            assert(bytes@ =~= b@);
                            RouteAction::WriteFile(t.substring_char(plen, tlen).to_owned(), bytes)
                        },
                        _ => RouteAction::NoReply,
                    }
                } else {
                    RouteAction::NoReply
                }
            } else {
                RouteAction::Reply(not_found())
            }
        },
    }
}

/// Finishes a `GET /files/{name}` route from the storage outcome: the
/// file's bytes become an octet-stream body, a missing file is NotFound.
pub fn file_read_response(outcome: Option<Vec<u8>>) -> (r: Response)
    ensures
        r@ == match outcome {
            Some(b) => ok_response(Some(ContentView::OctetStream(b@))),
            None => not_found_response(),
        },
{
    match outcome {
        Some(b) => {
            let mut r = Response::new();
            r.set_body(Content::OctetStream(b));
            r
        },
        None => not_found(),
    }
}

/// Finishes a `POST /files/{name}` route from the storage outcome:
/// Created on a successful write, and explicitly no reply on a failed
/// one (the connection is closed without a response).
pub fn file_write_response(write_ok: bool) -> (r: Option<Response>)
    ensures
        write_ok ==> (r matches Some(resp) && resp@ == created_response()),
        !write_ok ==> r is None,
{
    if write_ok {
        let mut r = Response::new();
        r.set_status(Status::Created);
        Some(r)
    } else {
        None
    }
}

/// Whether the request asks for gzip: its `Accept-Encoding` value
/// contains the substring `gzip` (no token list or quality parsing).
pub open spec fn spec_wants_gzip(req: RequestView) -> bool {
    req.headers.contains_key("Accept-Encoding"@) && contains_sub(
        req.headers["Accept-Encoding"@],
        "gzip"@,
    )
}

/// Marks the response for gzip compression when the request asks for it;
/// otherwise leaves the response unchanged.  Applied uniformly after the
/// handler, whatever the route produced.
pub fn negotiate_compression(req: &Request, resp: &mut Response)
    ensures
        final(resp)@ == (ResponseView {
            compression: if spec_wants_gzip(req@) {
                Some(CompressionAlgorithms::GZIP)
            } else {
                old(resp)@.compression
            },
            ..old(resp)@
        }),
{
    match req.headers.get("Accept-Encoding") {
        Some(v) => {
            match find_sub_str(v.as_str(), "gzip", 0) {
                Some(_) => {
                    resp.set_compression(CompressionAlgorithms::GZIP);
                },
                None => {},
            }
        },
        None => {},
    }
}

} // verus!
