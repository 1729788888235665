use tinyserve::gate::ConnectionGate;
use tinyserve::handler::{step, Action, Event, HandlerState};
use tinyserve::{MAX_CONNECTIONS, MAX_FILE_SIZE, MAX_HEADER_SIZE};

fn fresh() -> HandlerState {
    HandlerState::ReadingHeader { buf: Vec::new() }
}

fn respond_bytes(action: Action) -> Vec<u8> {
    match action {
        Action::Respond { bytes } => bytes,
        _ => panic!("expected a response action"),
    }
}

fn simple(status: &str, body: &str) -> Vec<u8> {
    format!(
        "HTTP/1.1 {}\r\nContent-Type: text/plain; charset=UTF-8\r\nContent-Length: {}\r\n\r\n{}",
        status,
        body.len(),
        body
    )
    .into_bytes()
}

#[test]
fn get_root_serves_index_html() {
    let (state, action) = step(fresh(), Event::Bytes { data: b"GET / HTTP/1.1\r\n\r\n".to_vec() });
    let rel = match action {
        Action::Resolve { rel_path } => rel_path,
        _ => panic!("expected a resolve action"),
    };
    assert_eq!(rel, "index.html");
    assert!(matches!(state, HandlerState::Resolving { is_get: true }));

    let (state, action) = step(
        state,
        Event::Resolved {
            root: Some(String::from("/srv/www")),
            target: Some(String::from("/srv/www/index.html")),
        },
    );
    assert!(matches!(action, Action::StatFile));

    let (state, action) = step(state, Event::Stat { found: true, is_dir: false, size: 13 });
    assert!(matches!(action, Action::ReadFile));

    let body = b"<html></html>".to_vec();
    let (state, action) = step(state, Event::FileRead { content: Some(body.clone()) });
    let mut expected = format!(
        "HTTP/1.1 200 OK\r\nContent-Type: text/html; charset=UTF-8\r\nContent-Length: {}\r\n\r\n",
        body.len()
    )
    .into_bytes();
    expected.extend(body.iter().copied());
    assert_eq!(respond_bytes(action), expected);
    assert!(matches!(state, HandlerState::Closed));
}

#[test]
fn head_request_gets_headers_only() {
    let (state, action) =
        step(fresh(), Event::Bytes { data: b"HEAD /index.html HTTP/1.1\r\n\r\n".to_vec() });
    let rel = match action {
        Action::Resolve { rel_path } => rel_path,
        _ => panic!("expected a resolve action"),
    };
    assert_eq!(rel, "index.html");
    assert!(matches!(state, HandlerState::Resolving { is_get: false }));

    let (state, _) = step(
        state,
        Event::Resolved {
            root: Some(String::from("/srv/www")),
            target: Some(String::from("/srv/www/index.html")),
        },
    );
    let (state, _) = step(state, Event::Stat { found: true, is_dir: false, size: 10 });
    let body = b"0123456789".to_vec();
    let (_, action) = step(state, Event::FileRead { content: Some(body.clone()) });
    let expected = format!(
        "HTTP/1.1 200 OK\r\nContent-Type: text/html; charset=UTF-8\r\nContent-Length: {}\r\n\r\n",
        body.len()
    );
    assert_eq!(respond_bytes(action), expected.as_bytes());
}

#[test]
fn dotdot_traversal_is_rejected_before_any_resolution() {
    let (state, action) = step(
        fresh(),
        Event::Bytes { data: b"GET /../../etc/passwd HTTP/1.1\r\n\r\n".to_vec() },
    );
    assert_eq!(respond_bytes(action), simple("400 Bad Request", "Invalid path"));
    assert!(matches!(state, HandlerState::Closed));
}

#[test]
fn method_other_than_get_head_is_rejected_without_fs_access() {
    let (state, action) =
        step(fresh(), Event::Bytes { data: b"POST / HTTP/1.1\r\n\r\n".to_vec() });
    assert_eq!(respond_bytes(action), simple("405 Method Not Allowed", "Only GET/HEAD allowed"));
    assert!(matches!(state, HandlerState::Closed));
}

#[test]
fn bad_escape_in_target_is_rejected() {
    let (_, action) = step(fresh(), Event::Bytes { data: b"GET /%zz HTTP/1.1\r\n\r\n".to_vec() });
    assert_eq!(respond_bytes(action), simple("400 Bad Request", "Invalid percent-encoding"));
}

#[test]
fn invalid_utf8_is_rejected() {
    let mut data = b"GET /".to_vec();
    data.push(0xff);
    data.extend(b" HTTP/1.1\r\n\r\n".iter().copied());
    let (_, action) = step(fresh(), Event::Bytes { data });
    assert_eq!(respond_bytes(action), simple("400 Bad Request", "Invalid UTF-8 in request"));
}

#[test]
fn escaped_traversal_is_caught_after_decoding() {
    let (_, action) =
        step(fresh(), Event::Bytes { data: b"GET /%2e%2e/secret HTTP/1.1\r\n\r\n".to_vec() });
    assert_eq!(respond_bytes(action), simple("400 Bad Request", "Invalid path"));
}

#[test]
fn empty_target_is_rejected() {
    let (_, action) = step(fresh(), Event::Bytes { data: b"GET\r\n\r\n".to_vec() });
    assert_eq!(respond_bytes(action), simple("400 Bad Request", "Invalid path"));
}

#[test]
fn oversized_header_gets_413_and_closes() {
    // More than MAX_HEADER_SIZE bytes with no terminating blank line.
    let data = vec![b'A'; MAX_HEADER_SIZE + 1];
    let (state, action) = step(fresh(), Event::Bytes { data });
    assert_eq!(respond_bytes(action), simple("413 Payload Too Large", "Header too large"));
    assert!(matches!(state, HandlerState::Closed));
}

#[test]
fn incomplete_header_asks_for_more_bytes() {
    let (state, action) =
        step(fresh(), Event::Bytes { data: b"GET / HTTP/1.1\r\n".to_vec() });
    assert!(matches!(action, Action::ReadMore));
    let (_, action) = step(state, Event::Bytes { data: b"\r\n".to_vec() });
    assert!(matches!(action, Action::Resolve { .. }));
}

#[test]
fn peer_close_and_read_errors_end_without_response() {
    let (state, action) = step(fresh(), Event::Eof);
    assert!(matches!(state, HandlerState::Closed));
    assert!(matches!(action, Action::Close));

    let (state, action) = step(fresh(), Event::ReadFailed);
    assert!(matches!(state, HandlerState::Closed));
    assert!(matches!(action, Action::Close));
}

#[test]
fn target_escaping_the_root_gets_403() {
    let state = HandlerState::Resolving { is_get: true };
    let (state, action) = step(
        state,
        Event::Resolved {
            root: Some(String::from("/srv/www")),
            target: Some(String::from("/etc/passwd")),
        },
    );
    assert_eq!(respond_bytes(action), simple("403 Forbidden", "Forbidden"));
    assert!(matches!(state, HandlerState::Closed));
}

#[test]
fn unresolvable_target_gets_404() {
    let state = HandlerState::Resolving { is_get: true };
    let (_, action) = step(
        state,
        Event::Resolved { root: Some(String::from("/srv/www")), target: None },
    );
    assert_eq!(respond_bytes(action), simple("404 Not Found", "Not found"));
}

#[test]
fn unresolvable_root_gets_500() {
    let state = HandlerState::Resolving { is_get: true };
    let (_, action) = step(state, Event::Resolved { root: None, target: None });
    assert_eq!(respond_bytes(action), simple("500 Internal Server Error", "Server error"));
}

#[test]
fn directory_target_gets_403() {
    let state = HandlerState::CheckingFile { is_get: true };
    let (_, action) = step(state, Event::Stat { found: true, is_dir: true, size: 0 });
    assert_eq!(respond_bytes(action), simple("403 Forbidden", "Not a file"));
}

#[test]
fn oversized_file_gets_413_without_a_read() {
    let state = HandlerState::CheckingFile { is_get: true };
    let (state, action) =
        step(state, Event::Stat { found: true, is_dir: false, size: MAX_FILE_SIZE + 1 });
    assert_eq!(respond_bytes(action), simple("413 Payload Too Large", "File too large"));
    assert!(matches!(state, HandlerState::Closed));
}

#[test]
fn failed_file_read_gets_404() {
    let state = HandlerState::Fetching { is_get: true };
    let (_, action) = step(state, Event::FileRead { content: None });
    assert_eq!(respond_bytes(action), simple("404 Not Found", "Not found"));
}

#[test]
fn gate_admits_to_capacity_and_rejects_the_next() {
    let mut gate = ConnectionGate::new();
    for _ in 0..MAX_CONNECTIONS {
        assert!(gate.try_admit());
    }
    assert!(!gate.try_admit());
    assert_eq!(gate.active(), MAX_CONNECTIONS);

    if gate.active() > 0 {
        gate.release();
    }
    assert_eq!(gate.active(), MAX_CONNECTIONS - 1);
    assert!(gate.try_admit());
    assert!(!gate.try_admit());
}
