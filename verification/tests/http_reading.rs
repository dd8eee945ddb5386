use cockpit_web_console::http::{
    find_header_end, parse_request_head, parse_usize, HttpRequest, ReadEvent, ReadOutcome,
    RequestError, RequestReader, MAX_HTTP_REQUEST_BYTES,
};

fn chars(s: &str) -> Vec<char> {
    s.chars().collect()
}

fn finished(out: ReadOutcome) -> Option<HttpRequest> {
    match out {
        ReadOutcome::Finished(r) => r,
        ReadOutcome::Pending => panic!("still pending"),
        ReadOutcome::Failed(e) => panic!("failed: {}", e.message()),
    }
}

fn failure(out: ReadOutcome) -> String {
    match out {
        ReadOutcome::Failed(e) => e.message(),
        _ => panic!("expected a failure"),
    }
}

#[test]
fn header_end_is_first_blank_line() {
    assert_eq!(find_header_end(b"GET / HTTP/1.1\r\n\r\nbody\r\n\r\n"), Some(14));
    assert_eq!(find_header_end(b"\r\n\r\n"), Some(0));
    assert_eq!(find_header_end(b"GET / HTTP/1.1\r\n"), None);
    assert_eq!(find_header_end(b"\r\n\r"), None);
    assert_eq!(find_header_end(b""), None);
}

#[test]
fn usize_parsing_follows_std() {
    assert_eq!(parse_usize(&chars("42")), Some(42));
    assert_eq!(parse_usize(&chars("+7")), Some(7));
    assert_eq!(parse_usize(&chars("007")), Some(7));
    assert_eq!(parse_usize(&chars("+")), None);
    assert_eq!(parse_usize(&chars("")), None);
    assert_eq!(parse_usize(&chars("-1")), None);
    assert_eq!(parse_usize(&chars("1 2")), None);
    assert_eq!(parse_usize(&chars("12a")), None);
    let max = usize::MAX.to_string();
    assert_eq!(parse_usize(&chars(&max)), Some(usize::MAX));
    let over = format!("{}0", max);
    assert_eq!(parse_usize(&chars(&over)), None);
}

#[test]
fn head_parse_reads_method_path_and_length() {
    let h = parse_request_head(b"POST /__cockpit_web__/invoke HTTP/1.1\r\nHost: 127.0.0.1\r\nContent-Length: 17")
        .ok()
        .unwrap();
    assert_eq!(h.method, "POST");
    assert_eq!(h.path, "/__cockpit_web__/invoke");
    assert_eq!(h.content_length, 17);
}

#[test]
fn head_parse_content_length_rules() {
    let h = parse_request_head(b"GET / HTTP/1.1\r\n  CONTENT-length :  +12  \r\nx: y").ok().unwrap();
    assert_eq!(h.content_length, 12);
    let h = parse_request_head(b"GET / HTTP/1.1\r\ncontent-length: 3\r\ncontent-length: 9").ok().unwrap();
    assert_eq!(h.content_length, 9);
    let h = parse_request_head(b"GET / HTTP/1.1\r\nHost: a").ok().unwrap();
    assert_eq!(h.content_length, 0);
    match parse_request_head(b"GET / HTTP/1.1\r\ncontent-length: ten\r\ncontent-length: 9") {
        Err(RequestError::InvalidContentLength) => {}
        _ => panic!("expected an invalid content-length"),
    }
    match parse_request_head(b"GET / HTTP/1.1\r\ncontent-length: -1") {
        Err(e) => assert_eq!(e.message(), "invalid content-length"),
        Ok(_) => panic!("expected an error"),
    }
}

#[test]
fn head_parse_defaults_and_normalises_the_path() {
    let h = parse_request_head(b"").ok().unwrap();
    assert_eq!(h.method, "");
    assert_eq!(h.path, "/");
    let h = parse_request_head(b"  GET\t/a/./b/../c?x=1#f   HTTP/1.1").ok().unwrap();
    assert_eq!(h.method, "GET");
    assert_eq!(h.path, "/a/c");
    let h = parse_request_head(b"GET").ok().unwrap();
    assert_eq!(h.path, "/");
}

#[test]
fn head_parse_rejects_bad_utf8_and_bad_targets() {
    match parse_request_head(&[b'G', 0xff, b' ', b'/']) {
        Err(RequestError::InvalidUtf8(m)) => assert!(m.contains("utf-8")),
        _ => panic!("expected a UTF-8 error"),
    }
    match parse_request_head(b"GET :99999 HTTP/1.1") {
        Err(e) => assert!(e.message().starts_with("invalid request path: ")),
        Ok(_) => panic!("expected an invalid path"),
    }
}

#[test]
fn reader_single_chunk_request() {
    let mut r = RequestReader::new();
    let req = finished(r.feed(ReadEvent::Data(
        b"POST /x HTTP/1.1\r\ncontent-length: 5\r\n\r\nhello, extra".to_vec(),
    )))
    .unwrap();
    assert_eq!(req.method, "POST");
    assert_eq!(req.path, "/x");
    assert_eq!(req.body, b"hello".to_vec());
}

#[test]
fn reader_request_in_pieces() {
    let mut r = RequestReader::new();
    assert!(matches!(r.feed(ReadEvent::Data(b"POST /x HTTP/1.1\r\ncontent-le".to_vec())), ReadOutcome::Pending));
    assert!(matches!(r.feed(ReadEvent::Data(b"ngth: 4\r\n\r".to_vec())), ReadOutcome::Pending));
    assert!(matches!(r.feed(ReadEvent::Data(b"\nab".to_vec())), ReadOutcome::Pending));
    let req = finished(r.feed(ReadEvent::Data(b"cdef".to_vec()))).unwrap();
    assert_eq!(req.body, b"abcd".to_vec());
}

#[test]
fn reader_get_without_body() {
    let mut r = RequestReader::new();
    let req = finished(r.feed(ReadEvent::Data(b"GET /index.html HTTP/1.1\r\nHost: x\r\n\r\n".to_vec()))).unwrap();
    assert_eq!(req.method, "GET");
    assert_eq!(req.path, "/index.html");
    assert!(req.body.is_empty());
}

#[test]
fn reader_close_before_any_byte_is_no_request() {
    let mut r = RequestReader::new();
    assert!(finished(r.feed(ReadEvent::Data(Vec::new()))).is_none());
}

#[test]
fn reader_errors() {
    let mut r = RequestReader::new();
    assert!(matches!(r.feed(ReadEvent::Data(b"GET /".to_vec())), ReadOutcome::Pending));
    assert_eq!(failure(r.feed(ReadEvent::Data(Vec::new()))), "connection closed before headers completed");

    let mut r = RequestReader::new();
    assert_eq!(failure(r.feed(ReadEvent::TimedOut)), "request read timed out");

    let mut r = RequestReader::new();
    assert_eq!(failure(r.feed(ReadEvent::Failed("reset".to_string()))), "reset");

    let mut r = RequestReader::new();
    assert!(matches!(r.feed(ReadEvent::Data(b"POST / HTTP/1.1\r\ncontent-length: 9\r\n\r\nab".to_vec())), ReadOutcome::Pending));
    assert_eq!(failure(r.feed(ReadEvent::TimedOut)), "request body read timed out");

    let mut r = RequestReader::new();
    assert!(matches!(r.feed(ReadEvent::Data(b"POST / HTTP/1.1\r\ncontent-length: 9\r\n\r\nab".to_vec())), ReadOutcome::Pending));
    assert_eq!(failure(r.feed(ReadEvent::Data(Vec::new()))), "connection closed before body completed");

    let mut r = RequestReader::new();
    let big = format!("POST / HTTP/1.1\r\ncontent-length: {}\r\n\r\n", MAX_HTTP_REQUEST_BYTES + 1);
    assert_eq!(failure(r.feed(ReadEvent::Data(big.into_bytes()))), "request body too large");

    let mut r = RequestReader::new();
    assert_eq!(failure(r.feed(ReadEvent::Data(vec![b'a'; MAX_HTTP_REQUEST_BYTES + 1]))), "request too large");

    let mut r = RequestReader::new();
    assert_eq!(failure(r.feed(ReadEvent::Data(b"GET / HTTP/1.1\r\ncontent-length: x\r\n\r\n".to_vec()))), "invalid content-length");
}

#[test]
fn reader_body_limit_counts_the_body() {
    let mut r = RequestReader::new();
    let head = format!("POST / HTTP/1.1\r\ncontent-length: {}\r\n\r\n", MAX_HTTP_REQUEST_BYTES);
    assert!(matches!(r.feed(ReadEvent::Data(head.into_bytes())), ReadOutcome::Pending));
    assert!(matches!(r.feed(ReadEvent::Data(vec![1u8; MAX_HTTP_REQUEST_BYTES - 1])), ReadOutcome::Pending));
    let req = finished(r.feed(ReadEvent::Data(vec![2u8; 1]))).unwrap();
    assert_eq!(req.body.len(), MAX_HTTP_REQUEST_BYTES);
    assert_eq!(*req.body.last().unwrap(), 2u8);

    // a read that overshoots the limit fails even though the declared body fits
    let mut r = RequestReader::new();
    let head = format!("POST / HTTP/1.1\r\ncontent-length: {}\r\n\r\n", MAX_HTTP_REQUEST_BYTES);
    assert!(matches!(r.feed(ReadEvent::Data(head.into_bytes())), ReadOutcome::Pending));
    assert!(matches!(r.feed(ReadEvent::Data(vec![1u8; MAX_HTTP_REQUEST_BYTES - 1])), ReadOutcome::Pending));
    assert_eq!(failure(r.feed(ReadEvent::Data(vec![2u8; 10]))), "request body too large");
}

#[test]
fn reader_outcome_does_not_depend_on_read_boundaries() {
    let bytes = b"POST /p HTTP/1.1\r\ncontent-length: 6\r\n\r\nabcdef".to_vec();
    for cut in 1..bytes.len() {
        let mut r = RequestReader::new();
        let first = r.feed(ReadEvent::Data(bytes[..cut].to_vec()));
        let req = match first {
            ReadOutcome::Pending => finished(r.feed(ReadEvent::Data(bytes[cut..].to_vec()))).unwrap(),
            other => finished(other).unwrap(),
        };
        assert_eq!(req.method, "POST");
        assert_eq!(req.path, "/p");
        assert_eq!(req.body, b"abcdef".to_vec());
    }
}

#[test]
fn head_parse_uses_unicode_whitespace() {
    let h = parse_request_head("GET\u{3000}/x\u{a0}HTTP/1.1\r\ncontent-length:\u{2003}4\u{85}".as_bytes())
        .ok()
        .unwrap();
    assert_eq!(h.method, "GET");
    assert_eq!(h.path, "/x");
    assert_eq!(h.content_length, 4);
}
