use rusty_server::handler::builtin_response;
use rusty_server::paths::{error_doc_path, resolve_path, scan_dotdot};
use rusty_server::request::{host_of, parse_request};
use rusty_server::response::{build_response, push_dec, Status};
use rusty_server::vhost::{VirtualHost, VirtualHosts};

#[test]
fn parse_request_reads_path_and_headers() {
    let buf = b"GET /a/b.html HTTP/1.1\r\nHost: example.com\r\nAccept: text/html\r\n\r\n".to_vec();
    let req = parse_request(&buf).expect("valid request");
    assert_eq!(req.path, b"/a/b.html".to_vec());
    assert_eq!(req.headers.len(), 2);
    assert_eq!(req.headers[0].name, b"Host".to_vec());
    assert_eq!(req.headers[0].value, b"example.com".to_vec());
    assert_eq!(req.headers[1].name, b"Accept".to_vec());
    assert_eq!(req.headers[1].value, b"text/html".to_vec());
}

#[test]
fn parse_request_rejects_malformed_heads() {
    // No CRLF at all.
    assert!(parse_request(&b"GET / HTTP/1.1".to_vec()).is_none());
    // Head never terminated by an empty line.
    assert!(parse_request(&b"GET / HTTP/1.1\r\nHost: a\r\n".to_vec()).is_none());
    // Request line with a single part.
    assert!(parse_request(&b"GARBAGE\r\n\r\n".to_vec()).is_none());
    // Request line with only two parts.
    assert!(parse_request(&b"GET /\r\n\r\n".to_vec()).is_none());
    // Empty method.
    assert!(parse_request(&b" / HTTP/1.1\r\n\r\n".to_vec()).is_none());
    // Empty path.
    assert!(parse_request(&b"GET  HTTP/1.1\r\n\r\n".to_vec()).is_none());
    // A fourth request-line part.
    assert!(parse_request(&b"GET / HTTP/1.1 extra\r\n\r\n".to_vec()).is_none());
    // Header line without a colon.
    assert!(parse_request(&b"GET / HTTP/1.1\r\nno-colon\r\n\r\n".to_vec()).is_none());
    // Header line with an empty name.
    assert!(parse_request(&b"GET / HTTP/1.1\r\n: v\r\n\r\n".to_vec()).is_none());
    // Nothing but bytes read from a closed peer.
    assert!(parse_request(&Vec::new()).is_none());
}

#[test]
fn host_lookup_is_case_insensitive_and_first_wins() {
    let buf = b"GET / HTTP/1.1\r\nhOsT: one\r\nHost: two\r\n\r\n".to_vec();
    let req = parse_request(&buf).expect("valid request");
    assert_eq!(host_of(&req), Some(b"one".to_vec()));
}

#[test]
fn header_values_are_trimmed_of_optional_whitespace() {
    let buf = b"GET / HTTP/1.1\r\nHost: \t padded.example \t\r\n\r\n".to_vec();
    let req = parse_request(&buf).expect("valid request");
    assert_eq!(host_of(&req), Some(b"padded.example".to_vec()));
}

#[test]
fn resolve_takes_first_matching_entry() {
    let t = VirtualHosts(vec![
        VirtualHost::new("dup.example", "/srv/first"),
        VirtualHost::new("dup.example", "/srv/second"),
        VirtualHost::new("other.example", "/srv/other"),
    ]);
    assert_eq!(t.resolve(&b"dup.example".to_vec()), Some(b"/srv/first".to_vec()));
    assert_eq!(t.resolve(&b"other.example".to_vec()), Some(b"/srv/other".to_vec()));
    assert_eq!(t.resolve(&b"none.example".to_vec()), None);
    // Hostname matching is exact, not case-folded.
    assert_eq!(t.resolve(&b"DUP.example".to_vec()), None);
}

#[test]
fn empty_table_resolves_nothing() {
    let t = VirtualHosts(Vec::new());
    assert_eq!(t.resolve(&b"any".to_vec()), None);
    assert_eq!(t.iter().len(), 0);
}

#[test]
fn iter_hands_back_the_entries_in_order() {
    let t = VirtualHosts(vec![
        VirtualHost::new("a", "/ra"),
        VirtualHost::new("b", "/rb"),
    ]);
    let entries = t.iter();
    assert_eq!(entries.len(), 2);
    assert_eq!(entries[0].hostname, b"a".to_vec());
    assert_eq!(entries[0].dir, b"/ra".to_vec());
    assert_eq!(entries[1].hostname, b"b".to_vec());
    assert_eq!(entries[1].dir, b"/rb".to_vec());
}

#[test]
fn table_from_entries_keeps_them() {
    let t = VirtualHosts::from(vec![VirtualHost::new("a", "/ra")]);
    assert_eq!(t.resolve(&b"a".to_vec()), Some(b"/ra".to_vec()));
}

#[test]
fn root_path_resolves_to_the_default_document() {
    let dir = b"/srv/site".to_vec();
    assert_eq!(
        resolve_path(&dir, &b"/".to_vec()),
        Some(b"/srv/site/index.html".to_vec())
    );
    assert_eq!(
        resolve_path(&dir, &b"/index.html".to_vec()),
        Some(b"/srv/site/index.html".to_vec())
    );
}

#[test]
fn ordinary_paths_resolve_under_the_root() {
    let dir = b"/srv/site".to_vec();
    assert_eq!(
        resolve_path(&dir, &b"/img/logo.png".to_vec()),
        Some(b"/srv/site/img/logo.png".to_vec())
    );
}

#[test]
fn traversal_and_odd_paths_resolve_to_nothing() {
    let dir = b"/srv/site".to_vec();
    assert_eq!(resolve_path(&dir, &b"/../../etc/passwd".to_vec()), None);
    assert_eq!(resolve_path(&dir, &b"/a/../b.html".to_vec()), None);
    assert_eq!(resolve_path(&dir, &b"/a..b".to_vec()), None);
    assert_eq!(resolve_path(&dir, &b"relative.html".to_vec()), None);
    assert_eq!(resolve_path(&dir, &Vec::new()), None);
}

#[test]
fn dotdot_scan_finds_consecutive_dots_only() {
    assert!(scan_dotdot(&b"/..".to_vec()));
    assert!(scan_dotdot(&b"a..b".to_vec()));
    assert!(!scan_dotdot(&b"/a.b.c".to_vec()));
    assert!(!scan_dotdot(&b".".to_vec()));
    assert!(!scan_dotdot(&Vec::new()));
}

#[test]
fn error_document_lives_under_the_same_root() {
    assert_eq!(
        error_doc_path(&b"/srv/site".to_vec()),
        b"/srv/site/404.html".to_vec()
    );
}

#[test]
fn responses_are_framed_exactly() {
    assert_eq!(
        build_response(Status::Okay, &b"hi".to_vec()),
        b"HTTP/1.1 200 OK\r\nServer: rusty-server\r\nContent-Length: 2\r\nContent-Type: text/html\r\n\r\nhi".to_vec()
    );
    assert_eq!(
        build_response(Status::NotFound, &Vec::new()),
        b"HTTP/1.1 404 Not Found\r\nServer: rusty-server\r\nContent-Length: 0\r\nContent-Type: text/html\r\n\r\n".to_vec()
    );
    let long_body = vec![120u8; 1234];
    let resp = build_response(Status::Okay, &long_body);
    let head = b"HTTP/1.1 200 OK\r\nServer: rusty-server\r\nContent-Length: 1234\r\nContent-Type: text/html\r\n\r\n";
    assert!(resp.starts_with(head));
    assert_eq!(&resp[head.len()..], &long_body[..]);
}

#[test]
fn builtin_responses_carry_the_reason_as_body() {
    assert_eq!(
        builtin_response(Status::BadRequest),
        b"HTTP/1.1 400 Bad Request\r\nServer: rusty-server\r\nContent-Length: 11\r\nContent-Type: text/html\r\n\r\nBad Request".to_vec()
    );
    assert_eq!(
        builtin_response(Status::ServerError),
        b"HTTP/1.1 500 Internal Server Error\r\nServer: rusty-server\r\nContent-Length: 21\r\nContent-Type: text/html\r\n\r\nInternal Server Error".to_vec()
    );
}

#[test]
fn decimal_digits_are_written_most_significant_first() {
    let cases: [(usize, &[u8]); 5] =
        [(0, b"0"), (7, b"7"), (10, b"10"), (404, b"404"), (98765, b"98765")];
    for (n, digits) in cases {
        let mut out = Vec::new();
        push_dec(&mut out, n);
        assert_eq!(out, digits.to_vec());
    }
}
