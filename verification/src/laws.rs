//! Properties of the server stated and proved once, over the same spec
//! functions the executable contracts use: what each route replies, what
//! the serializer emits for it, and when the parser rejects input.

use vstd::prelude::*;
use vstd::utf8::encode_utf8;

use crate::request::{line_at, spec_parse, spec_parse_verb, RequestView, Verb};
use crate::response::{
    content_header_chars, gzip_of, spec_body_bytes, spec_render, CompressionAlgorithms,
    ContentView, ResponseView, Status,
};
use crate::router::{
    created_response, not_found_response, ok_response, spec_dispatch, spec_wants_gzip,
    RouteActionView,
};
use crate::text::{dec_digits, find_sub, is_prefix_of};

verus! {

/// A response left at its defaults — status OK, no body, no compression —
/// serializes to exactly the status line and the blank line, with no
/// content headers.
pub proof fn lemma_render_default_response()
    ensures
        spec_render(ResponseView { status: Status::OK, body: None, compression: None })
            == encode_utf8("HTTP/1.1 200 OK\r\n\r\n"@),
{
    reveal_strlit("HTTP/1.1 ");
    reveal_strlit("HTTP/1.1 200 OK\r\n\r\n");
    reveal_strlit(" ");
    reveal_strlit("OK");
    reveal_strlit("\r\n");
    reveal_with_fuel(dec_digits, 4);
    assert(dec_digits(200) =~= seq!['2', '0', '0']);
    let r = ResponseView { status: Status::OK, body: None, compression: None };
    assert(crate::response::status_line_chars(Status::OK) + content_header_chars(r) + "\r\n"@
        =~= "HTTP/1.1 200 OK\r\n\r\n"@);
    assert(spec_render(r) =~= encode_utf8("HTTP/1.1 200 OK\r\n\r\n"@));
}

/// A NotFound reply with no body serializes to exactly the status line
/// and the blank line.
pub proof fn lemma_render_not_found()
    ensures
        spec_render(not_found_response()) == encode_utf8("HTTP/1.1 404 Not Found\r\n\r\n"@),
{
    reveal_strlit("HTTP/1.1 ");
    reveal_strlit("HTTP/1.1 404 Not Found\r\n\r\n");
    reveal_strlit(" ");
    reveal_strlit("Not Found");
    reveal_strlit("\r\n");
    reveal_with_fuel(dec_digits, 4);
    assert(dec_digits(404) =~= seq!['4', '0', '4']);
    assert(crate::response::status_line_chars(Status::NotFound) + content_header_chars(
        not_found_response(),
    ) + "\r\n"@ =~= "HTTP/1.1 404 Not Found\r\n\r\n"@);
    assert(spec_render(not_found_response()) =~= encode_utf8("HTTP/1.1 404 Not Found\r\n\r\n"@));
}

/// A Created reply with no body serializes to exactly the status line
/// and the blank line.
pub proof fn lemma_render_created()
    ensures
        spec_render(created_response()) == encode_utf8("HTTP/1.1 201 Created\r\n\r\n"@),
{
    reveal_strlit("HTTP/1.1 ");
    reveal_strlit("HTTP/1.1 201 Created\r\n\r\n");
    reveal_strlit(" ");
    reveal_strlit("Created");
    reveal_strlit("\r\n");
    reveal_with_fuel(dec_digits, 4);
    assert(dec_digits(201) =~= seq!['2', '0', '1']);
    assert(crate::response::status_line_chars(Status::Created) + content_header_chars(
        created_response(),
    ) + "\r\n"@ =~= "HTTP/1.1 201 Created\r\n\r\n"@);
    assert(spec_render(created_response()) =~= encode_utf8("HTTP/1.1 201 Created\r\n\r\n"@));
}

/// `GET /` always replies 200 with no body and no content headers.
pub proof fn lemma_root_response(req: RequestView, dir_configured: bool)
    requires
        req.verb == Verb::GET,
        req.target == "/"@,
    ensures
        spec_dispatch(req, dir_configured) == RouteActionView::Reply(ok_response(None)),
        spec_render(ok_response(None)) == encode_utf8("HTTP/1.1 200 OK\r\n\r\n"@),
{
    lemma_render_default_response();
}

/// For every `GET /echo/<s>` the reply is 200 with text body `<s>`
/// itself — the literal suffix, embedded slashes and all — declared as
/// `text/plain` with a `Content-Length` of `<s>`'s byte length.
pub proof fn lemma_echo_response(req: RequestView, dir_configured: bool)
    requires
        req.verb == Verb::GET,
        is_prefix_of("/echo/"@, req.target),
    ensures
        ({
            let s = req.target.skip("/echo/"@.len() as int);
            let reply = ok_response(Some(ContentView::Text(s)));
            &&& spec_dispatch(req, dir_configured) == RouteActionView::Reply(reply)
            &&& spec_body_bytes(reply) == encode_utf8(s)
            &&& content_header_chars(reply) == "Content-Type: text/plain\r\nContent-Length: "@
                + dec_digits(encode_utf8(s).len()) + "\r\n"@
        }),
{
    reveal_strlit("/");
    reveal_strlit("/echo/");
    assert(req.target != "/"@);
}

/// `GET /user-agent` echoes the `User-Agent` header as a 200 text reply,
/// and is 404 with no body when the header is absent.
pub proof fn lemma_user_agent_response(req: RequestView, dir_configured: bool)
    requires
        req.verb == Verb::GET,
        req.target == "/user-agent"@,
    ensures
        req.headers.contains_key("User-Agent"@) ==> spec_dispatch(req, dir_configured)
            == RouteActionView::Reply(
            ok_response(Some(ContentView::Text(req.headers["User-Agent"@]))),
        ),
        !req.headers.contains_key("User-Agent"@) ==> spec_dispatch(req, dir_configured)
            == RouteActionView::Reply(not_found_response()),
        spec_render(not_found_response()) == encode_utf8("HTTP/1.1 404 Not Found\r\n\r\n"@),
{
    reveal_strlit("/");
    reveal_strlit("/echo/");
    reveal_strlit("/user-agent");
    assert(req.target != "/"@);
    assert(!is_prefix_of("/echo/"@, req.target)) by {
        if is_prefix_of("/echo/"@, req.target) {
            assert(req.target.subrange(0, "/echo/"@.len() as int)[1] == req.target[1]);
        }
    }
    lemma_render_not_found();
}

/// The storage round trip: `POST /files/<name>` with an octet-stream
/// body of `data` hands exactly `(name, data)` to storage and replies
/// Created; a later `GET /files/<name>` asks storage for `name`, and a
/// reply built from bytes `data` carries `data` verbatim on the wire,
/// declared `application/octet-stream` with its exact byte length.
pub proof fn lemma_file_round_trip(
    post_req: RequestView,
    get_req: RequestView,
    name: Seq<char>,
    data: Seq<u8>,
)
    requires
        post_req.verb == Verb::POST,
        post_req.target == "/files/"@ + name,
        post_req.content == Some(ContentView::OctetStream(data)),
        get_req.verb == Verb::GET,
        get_req.target == "/files/"@ + name,
    ensures
        spec_dispatch(post_req, true) == RouteActionView::WriteFile(name, data),
        spec_dispatch(get_req, true) == RouteActionView::ReadFile(name),
        ({
            let reply = ok_response(Some(ContentView::OctetStream(data)));
            &&& spec_body_bytes(reply) == data
            &&& content_header_chars(reply)
                == "Content-Type: application/octet-stream\r\nContent-Length: "@ + dec_digits(
                data.len(),
            ) + "\r\n"@
        }),
        spec_render(created_response()) == encode_utf8("HTTP/1.1 201 Created\r\n\r\n"@),
{
    reveal_strlit("/");
    reveal_strlit("/echo/");
    reveal_strlit("/user-agent");
    reveal_strlit("/files/");
    assert(is_prefix_of("/files/"@, "/files/"@ + name)) by {
        assert(("/files/"@ + name).subrange(0, "/files/"@.len() as int) =~= "/files/"@);
    }
    assert(("/files/"@ + name).skip("/files/"@.len() as int) =~= name);
    assert(get_req.target != "/"@);
    assert(!is_prefix_of("/echo/"@, get_req.target)) by {
        if is_prefix_of("/echo/"@, get_req.target) {
            assert(get_req.target.subrange(0, "/echo/"@.len() as int)[1] == get_req.target[1]);
            assert(get_req.target[1] == 'f');
        }
    }
    assert(get_req.target != "/user-agent"@) by {
        if get_req.target == "/user-agent"@ {
            assert(get_req.target[1] == 'f');
        }
    }
    lemma_render_created();
}

/// Any request whose `Accept-Encoding` contains `gzip`, once negotiated,
/// carries a text body gzip-compressed: the reply declares
/// `Content-Encoding: gzip` and a `Content-Length` equal to the length
/// of the compressed bytes, not of the original text.
pub proof fn lemma_gzip_text_encoding(req: RequestView, resp: ResponseView, t: Seq<char>)
    requires
        spec_wants_gzip(req),
        resp.body == Some(ContentView::Text(t)),
    ensures
        ({
            let negotiated = ResponseView {
                compression: Some(CompressionAlgorithms::GZIP),
                ..resp
            };
            &&& spec_body_bytes(negotiated) == gzip_of(encode_utf8(t))
            &&& content_header_chars(negotiated)
                == "Content-Encoding: gzip\r\nContent-Type: text/plain\r\nContent-Length: "@
                + dec_digits(gzip_of(encode_utf8(t)).len()) + "\r\n"@
        }),
{
}

/// A request line whose first token is not a known verb, or which has no
/// second token at all, fails the whole parse: no request value exists,
/// unlike a parsed request that merely routes to NotFound.
pub proof fn lemma_rejected_request_line(s: Seq<char>)
    requires
        ({
            let line = line_at(s, 0);
            let sp1 = find_sub(line, " "@, 0);
            sp1 < 0 || spec_parse_verb(line.subrange(0, sp1)) is None
        }),
    ensures
        spec_parse(s) is None,
{
}

} // verus!
