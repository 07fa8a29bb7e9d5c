use midas_app::sim_child::{
    allocate_sim_port, health_outcome, inject_outcome, parse_status_line, response_body,
    SimChildError,
};

#[test]
fn parse_status_line_happy() {
    assert_eq!(parse_status_line(b"HTTP/1.1 200 OK\r\n"), Some(200));
    assert_eq!(parse_status_line(b"HTTP/1.1 404 Not Found\r\n"), Some(404));
}

#[test]
fn parse_status_line_bad() {
    assert_eq!(parse_status_line(b""), None);
    assert_eq!(parse_status_line(b"garbage"), None);
}

#[test]
fn parse_status_line_edge_cases() {
    assert_eq!(parse_status_line(b"HTTP/1.1 +204 No Content"), Some(204));
    assert_eq!(parse_status_line(b"  HTTP/1.1\t503\r\nX: 1\r\n"), Some(503));
    assert_eq!(parse_status_line(b"HTTP/1.1 70000 Big\r\n"), None);
    assert_eq!(parse_status_line(b"HTTP/1.1 2x0 Bad\r\n"), None);
    assert_eq!(parse_status_line(b"HTTP/1.1\r\n200 OK"), None);
    assert_eq!(parse_status_line(&[0xff, 0xfe, b' ', b'2']), None);
}

#[test]
fn response_body_extracts_after_headers() {
    let resp = b"HTTP/1.1 200 OK\r\nContent-Length: 5\r\n\r\nhello";
    assert_eq!(response_body(resp).as_deref(), Some("hello"));
}

#[test]
fn response_body_trims_and_handles_missing_blank_line() {
    assert_eq!(
        response_body(b"HTTP/1.1 500 X\r\n\r\n  oops \n").as_deref(),
        Some("oops")
    );
    assert_eq!(response_body(b"HTTP/1.1 500 X\r\n\r\n   ").as_deref(), Some(""));
    assert_eq!(response_body(b"HTTP/1.1 500 X\r\n"), None);
}

#[test]
fn allocate_sim_port_returns_preferred_when_free() {
    assert_eq!(allocate_sim_port(9000, |_| true).unwrap(), 9000);
}

#[test]
fn allocate_sim_port_falls_back_when_preferred_taken() {
    let got = allocate_sim_port(9000, |p| p != 9000 && p >= 7500).unwrap();
    assert_eq!(got, 7500);
}

#[test]
fn allocate_sim_port_zero_means_scan() {
    assert_eq!(allocate_sim_port(0, |_| true).unwrap(), 7498);
}

#[test]
fn allocate_sim_port_reports_exhausted_range() {
    match allocate_sim_port(9000, |_| false) {
        Err(SimChildError::NoFreePort { start, end }) => {
            assert_eq!(start, 7498);
            assert_eq!(end, 7600);
        }
        other => panic!("unexpected {other:?}"),
    }
}

#[test]
fn health_outcomes() {
    assert!(health_outcome(b"HTTP/1.1 200 OK\r\n\r\n").is_ok());
    match health_outcome(b"HTTP/1.1 503 Busy\r\n\r\nbroken") {
        Err(SimChildError::HttpStatus { status, body }) => {
            assert_eq!(status, 503);
            assert_eq!(body, "");
        }
        other => panic!("unexpected {other:?}"),
    }
    match health_outcome(b"nonsense") {
        Err(SimChildError::HttpFailed(m)) => assert_eq!(m, "no status line"),
        other => panic!("unexpected {other:?}"),
    }
}

#[test]
fn inject_outcomes() {
    assert!(inject_outcome(b"HTTP/1.1 204 No Content\r\n\r\n").is_ok());
    match inject_outcome(b"HTTP/1.1 401 Unauthorized\r\nContent-Length: 4\r\n\r\nnope") {
        Err(SimChildError::HttpStatus { status, body }) => {
            assert_eq!(status, 401);
            assert_eq!(body, "nope");
        }
        other => panic!("unexpected {other:?}"),
    }
    match inject_outcome(b"HTTP/1.1 500 X\r\n") {
        Err(SimChildError::HttpStatus { status, body }) => {
            assert_eq!(status, 500);
            assert_eq!(body, "");
        }
        other => panic!("unexpected {other:?}"),
    }
}
