use rusty_server::handler::{on_file_result, on_request_bytes, FileOutcome, Pending, Stage, Step};
use rusty_server::vhost::{VirtualHost, VirtualHosts};

fn table() -> VirtualHosts {
    VirtualHosts(vec![
        VirtualHost::new("alpha.example", "/srv/alpha"),
        VirtualHost::new("beta.example", "/srv/beta"),
    ])
}

fn request(host: &str, path: &str) -> Vec<u8> {
    format!("GET {} HTTP/1.1\r\nHost: {}\r\n\r\n", path, host).into_bytes()
}

fn response_bytes(status_line: &str, body: &str) -> Vec<u8> {
    format!(
        "{}\r\nServer: rusty-server\r\nContent-Length: {}\r\nContent-Type: text/html\r\n\r\n{}",
        status_line,
        body.len(),
        body
    )
    .into_bytes()
}

#[test]
fn present_file_is_served_with_its_contents() {
    let t = table();
    let step = on_request_bytes(&t, &request("alpha.example", "/page.html"));
    let pending = match step {
        Step::ReadFile(file, pending) => {
            assert_eq!(file, b"/srv/alpha/page.html".to_vec());
            assert_eq!(pending.dir, b"/srv/alpha".to_vec());
            assert!(matches!(pending.stage, Stage::MainFile));
            pending
        }
        _ => panic!("expected a file read"),
    };
    let step = on_file_result(pending, FileOutcome::Content(b"<h1>hello</h1>".to_vec()));
    match step {
        Step::Respond(bytes) => {
            assert_eq!(bytes, response_bytes("HTTP/1.1 200 OK", "<h1>hello</h1>"));
        }
        _ => panic!("expected a response"),
    }
}

#[test]
fn root_path_is_served_as_index_html() {
    let t = table();
    let by_root = on_request_bytes(&t, &request("alpha.example", "/"));
    let by_name = on_request_bytes(&t, &request("alpha.example", "/index.html"));
    match (by_root, by_name) {
        (Step::ReadFile(f1, p1), Step::ReadFile(f2, p2)) => {
            assert_eq!(f1, f2);
            assert_eq!(f1, b"/srv/alpha/index.html".to_vec());
            assert_eq!(p1.dir, p2.dir);
        }
        _ => panic!("expected file reads"),
    }
}

#[test]
fn missing_file_is_served_the_error_document_with_status_404() {
    let t = table();
    let step = on_request_bytes(&t, &request("beta.example", "/absent.html"));
    let pending = match step {
        Step::ReadFile(file, pending) => {
            assert_eq!(file, b"/srv/beta/absent.html".to_vec());
            pending
        }
        _ => panic!("expected a file read"),
    };
    let step = on_file_result(pending, FileOutcome::NotFound);
    let pending = match step {
        Step::ReadFile(file, pending) => {
            assert_eq!(file, b"/srv/beta/404.html".to_vec());
            assert!(matches!(pending.stage, Stage::ErrorDoc));
            pending
        }
        _ => panic!("expected the error document read"),
    };
    let step = on_file_result(pending, FileOutcome::Content(b"gone".to_vec()));
    match step {
        Step::Respond(bytes) => {
            assert_eq!(bytes, response_bytes("HTTP/1.1 404 Not Found", "gone"));
        }
        _ => panic!("expected a response"),
    }
}

#[test]
fn missing_error_document_falls_back_to_builtin_body() {
    let pending = Pending { dir: b"/srv/beta".to_vec(), stage: Stage::ErrorDoc };
    match on_file_result(pending, FileOutcome::NotFound) {
        Step::Respond(bytes) => {
            assert_eq!(bytes, response_bytes("HTTP/1.1 404 Not Found", "Not Found"));
        }
        _ => panic!("expected a response"),
    }
}

#[test]
fn filesystem_failure_answers_500() {
    let pending = Pending { dir: b"/srv/alpha".to_vec(), stage: Stage::MainFile };
    match on_file_result(pending, FileOutcome::OtherError) {
        Step::Respond(bytes) => {
            assert_eq!(
                bytes,
                response_bytes("HTTP/1.1 500 Internal Server Error", "Internal Server Error")
            );
        }
        _ => panic!("expected a response"),
    }
}

#[test]
fn unknown_host_gets_400_and_no_file_read() {
    let t = table();
    match on_request_bytes(&t, &request("gamma.example", "/index.html")) {
        Step::Respond(bytes) => {
            assert_eq!(bytes, response_bytes("HTTP/1.1 400 Bad Request", "Bad Request"));
        }
        _ => panic!("expected a 400 response"),
    }
}

#[test]
fn missing_host_header_gets_400() {
    let t = table();
    let buf = b"GET / HTTP/1.1\r\nAccept: */*\r\n\r\n".to_vec();
    match on_request_bytes(&t, &buf) {
        Step::Respond(bytes) => {
            assert_eq!(bytes, response_bytes("HTTP/1.1 400 Bad Request", "Bad Request"));
        }
        _ => panic!("expected a 400 response"),
    }
}

#[test]
fn empty_read_closes_without_response() {
    let t = table();
    assert!(matches!(on_request_bytes(&t, &Vec::new()), Step::CloseSilently));
}

#[test]
fn malformed_request_gets_400() {
    let t = table();
    let buf = b"NOT-HTTP\r\n\r\n".to_vec();
    match on_request_bytes(&t, &buf) {
        Step::Respond(bytes) => {
            assert!(bytes.starts_with(b"HTTP/1.1 400 Bad Request\r\n"));
        }
        _ => panic!("expected a 400 response"),
    }
}

#[test]
fn traversal_path_never_reaches_a_file_read() {
    let t = table();
    match on_request_bytes(&t, &request("alpha.example", "/../../etc/passwd")) {
        Step::Respond(bytes) => {
            assert!(bytes.starts_with(b"HTTP/1.1 400 Bad Request\r\n"));
        }
        Step::ReadFile(file, _) => {
            panic!("traversal path must not be read: {:?}", file);
        }
        Step::CloseSilently => panic!("expected a 400 response"),
    }
}

#[test]
fn two_vhosts_each_get_only_their_own_content() {
    let t = table();
    let steps = [
        on_request_bytes(&t, &request("alpha.example", "/site.html")),
        on_request_bytes(&t, &request("beta.example", "/site.html")),
    ];
    let mut dirs = Vec::new();
    for step in steps {
        match step {
            Step::ReadFile(file, pending) => {
                assert!(file.starts_with(&pending.dir));
                dirs.push(pending.dir);
            }
            _ => panic!("expected file reads"),
        }
    }
    assert_eq!(dirs[0], b"/srv/alpha".to_vec());
    assert_eq!(dirs[1], b"/srv/beta".to_vec());
}
