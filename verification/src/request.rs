//! Parsing of an HTTP/1.x request head: the request line and the headers,
//! read once from a connection into a bounded buffer.
//!
//! The grammar accepted here is the subset the server needs: a request line
//! `METHOD SP PATH SP VERSION CRLF` with non-empty parts and no further
//! space, followed by header lines `NAME ':' VALUE CRLF` with a non-empty
//! name, terminated by an empty line. Header values are trimmed of optional
//! whitespace; only the `Host` header, looked up without regard to ASCII
//! case, matters to the rest of the pipeline.

use vstd::prelude::*;

use crate::bytes::{
    eq_ignore_case, find_byte, find_crlf, lemma_find_byte, lemma_find_crlf, range_eq_ignore_case,
    subvec, trim_ows, trimmed_subvec, CR, LF, SP,
};

verus! {

/// ASCII colon, the header name/value separator.
pub const COLON: u8 = 58;

/// One parsed header: its name as sent, and its value with surrounding
/// whitespace removed.
pub struct Header {
    pub name: Vec<u8>,
    pub value: Vec<u8>,
}

impl View for Header {
    type V = (Seq<u8>, Seq<u8>);

    open spec fn view(&self) -> (Seq<u8>, Seq<u8>) {
        (self.name@, self.value@)
    }
}

/// The parts of a request the server reads: the request path and the headers
/// in the order they were sent.
pub struct ParsedRequest {
    pub path: Vec<u8>,
    pub headers: Vec<Header>,
}

/// The mathematical image of a parsed request.
pub ghost struct ReqView {
    pub path: Seq<u8>,
    pub headers: Seq<(Seq<u8>, Seq<u8>)>,
}

impl View for ParsedRequest {
    type V = ReqView;

    open spec fn view(&self) -> ReqView {
        ReqView { path: self.path@, headers: self.headers@.map_values(|h: Header| h@) }
    }
}

/// What a valid request line `METHOD SP PATH SP VERSION` yields: its path.
/// Method, path and version must be non-empty and no third space may occur.
pub open spec fn spec_parse_request_line(line: Seq<u8>) -> Option<Seq<u8>> {
    match find_byte(line, 0, SP) {
        None => None,
        Some(sp1) => match find_byte(line, sp1 + 1, SP) {
            None => None,
            Some(sp2) => if sp1 > 0 && sp2 > sp1 + 1 && sp2 + 1 < line.len() && find_byte(
                line,
                sp2 + 1,
                SP,
            ) is None {
                Some(line.subrange(sp1 + 1, sp2))
            } else {
                None
            },
        },
    }
}

/// What a valid header line `NAME ':' VALUE` yields: the name as sent and
/// the value trimmed of optional whitespace. The name must be non-empty.
pub open spec fn spec_parse_header_line(line: Seq<u8>) -> Option<(Seq<u8>, Seq<u8>)> {
    match find_byte(line, 0, COLON) {
        None => None,
        Some(c) => if c > 0 {
            Some((line.subrange(0, c), trim_ows(line.subrange(c + 1, line.len() as int))))
        } else {
            None
        },
    }
}

/// The header lines of `s` starting at `from`, up to the empty line that
/// ends the head; `None` when a line is malformed or the empty line never
/// comes.
pub open spec fn spec_parse_headers(s: Seq<u8>, from: int) -> Option<Seq<(Seq<u8>, Seq<u8>)>>
    decreases s.len() - from,
    via spec_parse_headers_decreases
{
    if from < 0 || from + 2 > s.len() {
        None
    } else if s[from] == CR && s[from + 1] == LF {
        Some(seq![])
    } else {
        match find_crlf(s, from) {
            None => None,
            Some(eol) => match spec_parse_header_line(s.subrange(from, eol)) {
                None => None,
                Some(h) => match spec_parse_headers(s, eol + 2) {
                    None => None,
                    Some(rest) => Some(seq![h] + rest),
                },
            },
        }
    }
}

#[via_fn]
proof fn spec_parse_headers_decreases(s: Seq<u8>, from: int) {
    if 0 <= from && from + 2 <= s.len() && !(s[from] == CR && s[from + 1] == LF) {
        lemma_find_crlf(s, from);
    }
}

/// What a whole request head parses to: the request line's path and the
/// headers, or `None` when the head is malformed or incomplete.
pub open spec fn spec_parse_request(s: Seq<u8>) -> Option<ReqView> {
    match find_crlf(s, 0) {
        None => None,
        Some(eol) => match spec_parse_request_line(s.subrange(0, eol)) {
            None => None,
            Some(path) => match spec_parse_headers(s, eol + 2) {
                None => None,
                Some(hs) => Some(ReqView { path: path, headers: hs }),
            },
        },
    }
}

/// The name of the one header the server resolves, in lower case.
pub open spec fn host_name() -> Seq<u8> {
    seq![104u8, 111u8, 115u8, 116u8]
}

pub open spec fn spec_host_from(headers: Seq<(Seq<u8>, Seq<u8>)>, i: int) -> Option<Seq<u8>>
    decreases headers.len() - i,
{
    if i < 0 || i >= headers.len() {
        None
    } else if eq_ignore_case(headers[i].0, host_name()) {
        Some(headers[i].1)
    } else {
        spec_host_from(headers, i + 1)
    }
}

/// The value of the first `Host` header, matched without regard to ASCII
/// case, if any.
pub open spec fn spec_host_of(headers: Seq<(Seq<u8>, Seq<u8>)>) -> Option<Seq<u8>> {
    spec_host_from(headers, 0)
}

/// `find_byte` restricted to a line `v[lstart..to]`: first occurrence of `b`
/// in `v[from..to]`, reported against the line's own indices.
fn find_byte_in(v: &Vec<u8>, lstart: usize, from: usize, to: usize, b: u8) -> (r: Option<usize>)
    requires
        lstart <= from <= to <= v.len(),
    ensures
        ({
            let line = v@.subrange(lstart as int, to as int);
            match r {
                Some(i) => from <= i < to && find_byte(line, from - lstart, b) == Some(
                    i - lstart,
                ),
                None => find_byte(line, from - lstart, b) is None,
            }
        }),
{
    let ghost line = v@.subrange(lstart as int, to as int);
    let mut i: usize = from;
    while i < to
        invariant
            lstart <= from <= i <= to <= v.len(),
            line == v@.subrange(lstart as int, to as int),
            forall|j: int| from - lstart <= j < i - lstart ==> line[j] != b,
        decreases to - i,
    {
        if v[i] == b {
            proof {
                assert(line[i - lstart] == b);
                lemma_find_byte(line, from - lstart, b);
            }
            return Some(i);
        }
        proof {
            assert(line[i - lstart] != b);
        }
        i = i + 1;
    }
    proof {
        lemma_find_byte(line, from - lstart, b);
    }
    None
}

/// Parse the request line `v[0..to]`, yielding the path.
fn parse_request_line(v: &Vec<u8>, to: usize) -> (r: Option<Vec<u8>>)
    requires
        to <= v.len(),
    ensures
        ({
            let line = v@.subrange(0, to as int);
            match r {
                Some(p) => spec_parse_request_line(line) == Some(p@),
                None => spec_parse_request_line(line) is None,
            }
        }),
{
    let ghost line = v@.subrange(0, to as int);
    let sp1 = match find_byte_in(v, 0, 0, to, SP) {
        None => {
            return None;
        },
        Some(i) => i,
    };
    let sp2 = match find_byte_in(v, 0, sp1 + 1, to, SP) {
        None => {
            return None;
        },
        Some(i) => i,
    };
    if sp1 > 0 && sp2 > sp1 + 1 && sp2 + 1 < to {
        let third = find_byte_in(v, 0, sp2 + 1, to, SP);
        if third.is_none() {
            let p = subvec(v, sp1 + 1, sp2);
            proof {
                assert(p@ =~= line.subrange(sp1 + 1, sp2 as int));
            }
            Some(p)
        } else {
            None
        }
    } else {
        None
    }
}

/// Parse the header line `v[from..to]`.
fn parse_header_line(v: &Vec<u8>, from: usize, to: usize) -> (r: Option<Header>)
    requires
        from <= to <= v.len(),
    ensures
        ({
            let line = v@.subrange(from as int, to as int);
            match r {
                Some(h) => spec_parse_header_line(line) == Some(h@),
                None => spec_parse_header_line(line) is None,
            }
        }),
{
    let ghost line = v@.subrange(from as int, to as int);
    match find_byte_in(v, from, from, to, COLON) {
        None => None,
        Some(c) => {
            if c > from {
                let name = subvec(v, from, c);
                let value = trimmed_subvec(v, c + 1, to);
                proof {
                    assert(name@ =~= line.subrange(0, c - from));
                    assert(v@.subrange(c + 1 as int, to as int) =~= line.subrange(
                        c - from + 1,
                        line.len() as int,
                    ));
                }
                Some(Header { name, value })
            } else {
                None
            }
        },
    }
}

/// Parse the header lines of `v` from `from` up to the empty line.
fn parse_headers(v: &Vec<u8>, from: usize) -> (r: Option<Vec<Header>>)
    requires
        from <= v.len(),
    ensures
        ({
            let hs = spec_parse_headers(v@, from as int);
            match r {
                Some(out) => hs == Some(out@.map_values(|h: Header| h@)),
                None => hs is None,
            }
        }),
    decreases v.len() - from,
{
    if v.len() - from < 2 {
        return None;
    }
    if v[from] == CR && v[from + 1] == LF {
        let out: Vec<Header> = Vec::new();
        proof {
            assert(out@.map_values(|h: Header| h@) =~= Seq::<(Seq<u8>, Seq<u8>)>::empty());
        }
        return Some(out);
    }
    match crate::bytes::find_crlf_from(v, from) {
        None => None,
        Some(eol) => {
            proof {
                lemma_find_crlf(v@, from as int);
            }
            match parse_header_line(v, from, eol) {
                None => None,
                Some(h) => {
                    match parse_headers(v, eol + 2) {
                        None => None,
                        Some(mut rest) => {
                            let ghost h_view = h@;
                            let ghost rest_views = rest@.map_values(|x: Header| x@);
                            rest.insert(0, h);
                            proof {
                                assert(rest@.map_values(|x: Header| x@) =~= seq![h_view]
                                    + rest_views);
                            }
                            Some(rest)
                        },
                    }
                },
            }
        },
    }
}

/// Parse a whole request head read from a connection. Returns the structured
/// request exactly when the bytes form a valid head under this grammar.
pub fn parse_request(v: &Vec<u8>) -> (r: Option<ParsedRequest>)
    ensures
        match r {
            Some(req) => spec_parse_request(v@) == Some(req@),
            None => spec_parse_request(v@) is None,
        },
{
    let n = v.len();
    if n < 2 {
        return None;
    }
    match crate::bytes::find_crlf_from(v, 0) {
        None => None,
        Some(eol) => {
            proof {
                lemma_find_crlf(v@, 0);
            }
            match parse_request_line(v, eol) {
                None => None,
                Some(path) => {
                    match parse_headers(v, eol + 2) {
                        None => None,
                        Some(headers) => Some(ParsedRequest { path, headers }),
                    }
                },
            }
        },
    }
}

/// The value of the first `Host` header of `req`, matched without regard to
/// ASCII case.
pub fn host_of(req: &ParsedRequest) -> (r: Option<Vec<u8>>)
    ensures
        match r {
            Some(h) => spec_host_of(req@.headers) == Some(h@),
            None => spec_host_of(req@.headers) is None,
        },
{
    let ghost views = req@.headers;
    let mut hn: Vec<u8> = Vec::new();
    hn.push(104);
    hn.push(111);
    hn.push(115);
    hn.push(116);
    proof {
        assert(hn@ =~= host_name());
    }
    let mut i: usize = 0;
    while i < req.headers.len()
        invariant
            i <= req.headers.len(),
            hn@ == host_name(),
            views == req@.headers,
            views.len() == req.headers.len(),
            forall|j: int| 0 <= j < views.len() ==> #[trigger] views[j] == req.headers[j]@,
            spec_host_of(views) == spec_host_from(views, i as int),
        decreases req.headers.len() - i,
    {
        let name = &req.headers[i].name;
        if range_eq_ignore_case(name, 0, name.len(), &hn) {
            proof {
                assert(name@.subrange(0, name@.len() as int) =~= name@);
            }
            let value = subvec(&req.headers[i].value, 0, req.headers[i].value.len());
            proof {
                assert(value@ =~= req.headers[i as int].value@);
            }
            return Some(value);
        }
        proof {
            assert(name@.subrange(0, name@.len() as int) =~= name@);
            assert(!eq_ignore_case(views[i as int].0, host_name()));
        }
        i = i + 1;
    }
    None
}

} // verus!
