//! The request side of the server: the verb, the header map, and the
//! parser that turns a raw connection buffer into a structured request.
//!
//! The buffer must decode as UTF-8; the decoded text is split on CRLF.
//! The first line carries the verb and the target; the following lines
//! are headers until an empty or malformed line; the piece after that,
//! if any, is the body candidate, accepted only under a recognized
//! `Content-Type`.  Any failure yields no request at all, never a
//! partial one.

use vstd::prelude::*;
use vstd::string::StrSliceExecFns;
use vstd::utf8::{decode_utf8, encode_utf8, valid_utf8};

use crate::response::{Content, ContentView};
use crate::text::{find_sub, find_sub_str, lemma_find_sub_bounds, str_eq};

verus! {

/// A request method.  Unknown tokens fail the whole parse.
#[derive(Clone, Copy, Debug, PartialEq, Eq, Structural)]
pub enum Verb {
    GET,
    POST,
}

pub open spec fn spec_parse_verb(tok: Seq<char>) -> Option<Verb> {
    if tok == "GET"@ {
        Some(Verb::GET)
    } else if tok == "POST"@ {
        Some(Verb::POST)
    } else {
        None
    }
}

impl Verb {
    pub fn from_str(word: &str) -> (r: Option<Verb>)
        ensures
            r == spec_parse_verb(word@),
    {
        if str_eq(word, "GET") {
            Some(Verb::GET)
        } else if str_eq(word, "POST") {
            Some(Verb::POST)
        } else {
            None
        }
    }
}

/// The headers of a request: name/value pairs in which a later line with
/// the same name overwrites an earlier one.  Names are case-sensitive,
/// exactly as received.
pub struct Headers {
    pairs: Vec<(String, String)>,
}

/// The map a pair list denotes: pairs apply in order, later ones last.
spec fn pairs_to_map(ps: Seq<(String, String)>) -> Map<Seq<char>, Seq<char>>
    decreases ps.len(),
{
    if ps.len() == 0 {
        Map::empty()
    } else {
        pairs_to_map(ps.drop_last()).insert(ps.last().0@, ps.last().1@)
    }
}

impl View for Headers {
    type V = Map<Seq<char>, Seq<char>>;

    closed spec fn view(&self) -> Map<Seq<char>, Seq<char>> {
        pairs_to_map(self.pairs@)
    }
}

proof fn lemma_pairs_to_map_get(ps: Seq<(String, String)>, name: Seq<char>, i: int)
    requires
        0 <= i < ps.len(),
        ps[i].0@ == name,
        forall|j: int| i < j < ps.len() ==> ps[j].0@ != name,
    ensures
        pairs_to_map(ps).contains_key(name),
        pairs_to_map(ps)[name] == ps[i].1@,
    decreases ps.len(),
{
    if i < ps.len() - 1 {
        assert(forall|j: int| i < j < ps.drop_last().len() ==> ps.drop_last()[j].0@ != name);
        lemma_pairs_to_map_get(ps.drop_last(), name, i);
    }
}

proof fn lemma_pairs_to_map_absent(ps: Seq<(String, String)>, name: Seq<char>)
    requires
        forall|j: int| 0 <= j < ps.len() ==> ps[j].0@ != name,
    ensures
        !pairs_to_map(ps).contains_key(name),
    decreases ps.len(),
{
    if ps.len() > 0 {
        lemma_pairs_to_map_absent(ps.drop_last(), name);
    }
}

impl Headers {
    pub fn new() -> (r: Headers)
        ensures
            r@ == Map::<Seq<char>, Seq<char>>::empty(),
    {
        Headers { pairs: Vec::new() }
    }

    /// Records a header line, overwriting any earlier value for the name.
    pub fn insert(&mut self, name: String, value: String)
        ensures
            final(self)@ == old(self)@.insert(name@, value@),
    {
        self.pairs.push((name, value));
        proof {
            assert(self.pairs@.drop_last() =~= old(self).pairs@);
        }
    }

    /// The value recorded last for `name`, if any.
    pub fn get<'a>(&'a self, name: &str) -> (r: Option<&'a String>)
        ensures
            match r {
                Some(v) => self@.contains_key(name@) && v@ == self@[name@],
                None => !self@.contains_key(name@),
            },
    {
        let mut i: usize = self.pairs.len();
        while i > 0
            invariant
                i <= self.pairs@.len(),
                forall|j: int| i <= j < self.pairs@.len() ==> self.pairs@[j].0@ != name@,
            decreases i,
        {
            i = i - 1;
            if str_eq(self.pairs[i].0.as_str(), name) {
                proof {
                    lemma_pairs_to_map_get(self.pairs@, name@, i as int);
                }
                return Some(&self.pairs[i].1);
            }
        }
        proof {
            lemma_pairs_to_map_absent(self.pairs@, name@);
        }
        None
    }
}

/// A fully parsed request.  Partial or malformed input never produces one.
pub struct Request {
    pub verb: Verb,
    pub target: String,
    pub headers: Headers,
    pub content: Option<Content>,
}

pub struct RequestView {
    pub verb: Verb,
    pub target: Seq<char>,
    pub headers: Map<Seq<char>, Seq<char>>,
    pub content: Option<ContentView>,
}

impl View for Request {
    type V = RequestView;

    open spec fn view(&self) -> RequestView {
        RequestView {
            verb: self.verb,
            target: self.target@,
            headers: self.headers@,
            content: match self.content {
                Some(c) => Some(c.view()),
                None => None,
            },
        }
    }
}

/// Where the CRLF-delimited piece starting at `pos` ends.
pub open spec fn line_end_at(s: Seq<char>, pos: int) -> int {
    let e = find_sub(s, "\r\n"@, pos);
    if e < 0 {
        s.len() as int
    } else {
        e
    }
}

/// The CRLF-delimited piece starting at `pos`.
pub open spec fn line_at(s: Seq<char>, pos: int) -> Seq<char> {
    s.subrange(pos, line_end_at(s, pos))
}

/// The start of the piece after the one at `pos`, or -1 when the piece
/// at `pos` is the last (it ends at the end of input, not at a CRLF).
pub open spec fn after_line(s: Seq<char>, pos: int) -> int {
    let e = find_sub(s, "\r\n"@, pos);
    if e < 0 {
        -1
    } else {
        e + 2
    }
}

/// Parses the request line: the first space-delimited token must be a
/// known verb and a second token must exist; the second token is the
/// target, taken verbatim.
pub open spec fn spec_request_line(line: Seq<char>) -> Option<(Verb, Seq<char>)> {
    let sp1 = find_sub(line, " "@, 0);
    if sp1 < 0 {
        None
    } else {
        match spec_parse_verb(line.subrange(0, sp1)) {
            None => None,
            Some(verb) => {
                let rest = line.subrange(sp1 + 1, line.len() as int);
                let sp2 = find_sub(rest, " "@, 0);
                let target = if sp2 < 0 {
                    rest
                } else {
                    rest.subrange(0, sp2)
                };
                Some((verb, target))
            },
        }
    }
}

/// Consumes header lines from `pos` on, returning the accumulated map
/// and the start of the body candidate (-1 when there is none).  An
/// empty line ends the block; so does a line without a `": "` separator,
/// whose remainder is then not inspected.  A header line's value runs to
/// the next `": "` occurrence, if any.
pub open spec fn spec_headers(s: Seq<char>, pos: int, acc: Map<Seq<char>, Seq<char>>) -> (
    Map<Seq<char>, Seq<char>>,
    int,
)
    decreases s.len() - pos,
    via spec_headers_decreases
{
    if pos < 0 || pos > s.len() {
        (acc, -1)
    } else {
        let line = line_at(s, pos);
        let nxt = after_line(s, pos);
        if line.len() == 0 {
            (acc, nxt)
        } else {
            let c = find_sub(line, ": "@, 0);
            if c < 0 {
                (acc, nxt)
            } else {
                let name = line.subrange(0, c);
                let rest = line.subrange(c + 2, line.len() as int);
                let c2 = find_sub(rest, ": "@, 0);
                let value = if c2 < 0 {
                    rest
                } else {
                    rest.subrange(0, c2)
                };
                if nxt < 0 {
                    (acc.insert(name, value), -1)
                } else {
                    spec_headers(s, nxt, acc.insert(name, value))
                }
            }
        }
    }
}

#[via_fn]
proof fn spec_headers_decreases(s: Seq<char>, pos: int, acc: Map<Seq<char>, Seq<char>>) {
    reveal_strlit("\r\n");
    lemma_find_sub_bounds(s, "\r\n"@, pos);
}

/// The body candidate: the piece at `pos`, when header parsing left one.
pub open spec fn spec_body_at(s: Seq<char>, pos: int) -> Option<Seq<char>> {
    if pos < 0 {
        None
    } else {
        Some(line_at(s, pos))
    }
}

/// A body candidate becomes content only under a recognized
/// `Content-Type`: `text/plain` keeps the text, `application/octet-stream`
/// keeps its UTF-8 bytes, anything else (or no header) drops the bytes.
pub open spec fn spec_content(headers: Map<Seq<char>, Seq<char>>, body: Option<Seq<char>>) -> Option<
    ContentView,
> {
    match body {
        None => None,
        Some(text) => {
            if headers.contains_key("Content-Type"@) {
                if headers["Content-Type"@] == "text/plain"@ {
                    Some(ContentView::Text(text))
                } else if headers["Content-Type"@] == "application/octet-stream"@ {
                    Some(ContentView::OctetStream(encode_utf8(text)))
                } else {
                    None
                }
            } else {
                None
            }
        },
    }
}

/// The whole parse of the decoded text.
pub open spec fn spec_parse(s: Seq<char>) -> Option<RequestView> {
    match spec_request_line(line_at(s, 0)) {
        None => None,
        Some((verb, target)) => {
            let hr = spec_headers(s, after_line(s, 0), Map::empty());
            let content = spec_content(hr.0, spec_body_at(s, hr.1));
            Some(RequestView { verb: verb, target: target, headers: hr.0, content: content })
        },
    }
}

/// Relies on `core::str::from_utf8`: it returns `Ok` exactly on valid
/// UTF-8 input, and the returned slice holds the given bytes unchanged.
#[verifier::external_body]
fn utf8_decode<'a>(bytes: &'a [u8]) -> (r: Option<&'a str>)
    ensures
        r is Some <==> valid_utf8(bytes@),
        r matches Some(s) ==> s@ == decode_utf8(bytes@),
{
    match core::str::from_utf8(bytes) {
        Ok(s) => Some(s),
        Err(_) => None,
    }
}

/// The end of the piece at `pos` and the start of the next piece, if any.
fn line_bounds(s: &str, slen: usize, pos: usize) -> (r: (usize, Option<usize>))
    requires
        slen == s@.len(),
        pos <= slen,
    ensures
        r.0 == line_end_at(s@, pos as int),
        pos <= r.0 <= slen,
        match r.1 {
            Some(n) => after_line(s@, pos as int) == n && pos < n <= slen,
            None => after_line(s@, pos as int) == -1,
        },
{
    proof {
        reveal_strlit("\r\n");
    }
    match find_sub_str(s, "\r\n", pos) {
        Some(e) => (e, Some(e + 2)),
        None => (slen, None),
    }
}

impl Request {
    /// Parses a connection buffer.  The result is exactly what
    /// [`spec_parse`] says of the decoded text; undecodable bytes, an
    /// unknown verb or a missing target yield `None`.
    pub fn from_buffer(buffer: &[u8]) -> (r: Option<Request>)
        ensures
            valid_utf8(buffer@) ==> match spec_parse(decode_utf8(buffer@)) {
                Some(m) => r matches Some(req) && req@ == m,
                None => r is None,
            },
            !valid_utf8(buffer@) ==> r is None,
    {
        proof {
            reveal_strlit(" ");
            reveal_strlit(": ");
        }
        let s = match utf8_decode(buffer) {
            Some(s) => s,
            None => {
                return None;
            },
        };
        let ghost cs = s@;
        let slen = s.unicode_len();

        let (l0_end, next0) = line_bounds(s, slen, 0);
        let line0 = s.substring_char(0, l0_end);
        assert(line0@ == line_at(cs, 0));
        let l0len = line0.unicode_len();
        let sp1 = match find_sub_str(line0, " ", 0) {
            Some(i) => i,
            None => {
                return None;
            },
        };
        let verb = match Verb::from_str(line0.substring_char(0, sp1)) {
            Some(v) => v,
            None => {
                return None;
            },
        };
        let rest0 = line0.substring_char(sp1 + 1, l0len);
        let target_str = match find_sub_str(rest0, " ", 0) {
            Some(j) => rest0.substring_char(0, j),
            None => rest0,
        };
        let target = target_str.to_owned();
        assert(spec_request_line(line_at(cs, 0)) == Some((verb, target@)));

        let mut headers = Headers::new();
        let mut content: Option<Content> = None;
        if let Some(h0) = next0 {
            let mut pos = h0;
            let mut body_start: Option<usize> = None;
            loop
                invariant_except_break
                    spec_headers(cs, h0 as int, Map::empty()) == spec_headers(
                        cs,
                        pos as int,
                        headers@,
                    ),
                invariant
                    cs == s@,
                    slen == cs.len(),
                    pos <= slen,
                ensures
                    spec_headers(cs, h0 as int, Map::empty()) == (
                        headers@,
                        match body_start {
                            Some(b) => b as int,
                            None => -1,
                        },
                    ),
                    match body_start {
                        Some(b) => b <= s@.len(),
                        None => true,
                    },
                    cs == s@,
                    slen == cs.len(),
                decreases slen - pos,
            {
                proof {
                    reveal_strlit(": ");
                }
                let (lend, lnext) = line_bounds(s, slen, pos);
                if lend == pos {
                    assert(line_at(cs, pos as int).len() == 0);
                    body_start = lnext;
                    break ;
                }
                assert(line_at(cs, pos as int).len() > 0);
                let line = s.substring_char(pos, lend);
                let llen = line.unicode_len();
                let c = match find_sub_str(line, ": ", 0) {
                    None => {
                        body_start = lnext;
                        break ;
                    },
                    Some(c) => c,
                };
                let name = line.substring_char(0, c).to_owned();
                let rest = line.substring_char(c + 2, llen);
                let value_str = match find_sub_str(rest, ": ", 0) {
                    Some(j) => rest.substring_char(0, j),
                    None => rest,
                };
                headers.insert(name, value_str.to_owned());
                match lnext {
                    Some(n) => {
                        pos = n;
                    },
                    None => {
                        body_start = None;
                        break ;
                    },
                }
            }
            if let Some(bp) = body_start {
                let (bend, _) = line_bounds(s, slen, bp);
                let body_text = s.substring_char(bp, bend);
                content = match headers.get("Content-Type") {
                    None => None,
                    Some(v) => {
                        if str_eq(v.as_str(), "text/plain") {
                            Some(Content::Text(body_text.to_owned()))
                        } else if str_eq(v.as_str(), "application/octet-stream") {
                            Some(Content::OctetStream(body_text.as_bytes_vec()))
                        } else {
                            None
                        }
                    },
                };
            }
        }
        let req = Request { verb, target, headers, content };
        proof {
            assert(spec_parse(cs) matches Some(m) && req@ == m);
        }
        Some(req)
    }
}

} // verus!
