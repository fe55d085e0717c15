//! The wire protocol of the rust-analyzer proxy.

use rsc_lsp::error::LspError;
use rsc_lsp::ra_proxy::{frame_message, header_step, parse_usize, HeaderStep, ParseIntKind, PendingRequests};

#[test]
fn test_ra_proxy_lsp_message_framing() {
    let mut params = serde_json::Map::new();
    params.clear();
    let mut msg = serde_json::Map::new();
    msg.insert("jsonrpc".to_owned(), serde_json::Value::String("2.0".to_owned()));
    msg.insert("id".to_owned(), serde_json::Value::from(1));
    msg.insert("method".to_owned(), serde_json::Value::String("initialize".to_owned()));
    msg.insert("params".to_owned(), serde_json::Value::Object(params));
    let msg = serde_json::Value::Object(msg);

    let body = serde_json::to_string(&msg).unwrap();
    let framed = frame_message(&body);

    assert!(framed.starts_with("Content-Length: "));
    assert!(framed.contains("\r\n\r\n"));
    assert!(framed.contains("\"jsonrpc\":\"2.0\""));
}

#[test]
fn test_ra_proxy_request_id_increments() {
    let mut pending: PendingRequests<()> = PendingRequests::new();
    let id1 = pending.register(());
    let id2 = pending.register(());
    assert_eq!(id1, 1);
    assert_eq!(id2, 2);
}

#[test]
fn test_ra_proxy_pending_map_insert_and_remove() {
    let mut pending: PendingRequests<&str> = PendingRequests::new();
    let mut id = 0;
    while id < 42 {
        id = pending.register("waiter");
    }
    assert_eq!(id, 42);
    assert!(pending.is_waiting(42));
    let removed = pending.complete(42);
    assert!(removed.is_some());
    assert!(!pending.is_waiting(42));
}

#[test]
fn framing_counts_utf8_bytes() {
    assert_eq!(frame_message("{}"), "Content-Length: 2\r\n\r\n{}");
    assert_eq!(frame_message(""), "Content-Length: 0\r\n\r\n");
    assert_eq!(frame_message("\"\u{e9}\""), "Content-Length: 4\r\n\r\n\"\u{e9}\"");
    assert_eq!(frame_message("\u{1f600}"), "Content-Length: 4\r\n\r\n\u{1f600}");
}

fn chars(s: &str) -> Vec<char> {
    s.chars().collect()
}

#[test]
fn parse_usize_matches_std() {
    for s in ["0", "42", "+7", "007", "", "+", "-", "-1", "12a", " 1", "18446744073709551615", "18446744073709551616", "99999999999999999999x"] {
        let ours = parse_usize(&chars(s));
        let theirs = s.parse::<usize>();
        match (ours, theirs) {
            (Ok(a), Ok(b)) => assert_eq!(a, b, "{s}"),
            (Err(k), Err(e)) => {
                let text = match k {
                    ParseIntKind::Empty => "cannot parse integer from empty string",
                    ParseIntKind::InvalidDigit => "invalid digit found in string",
                    ParseIntKind::PosOverflow => "number too large to fit in target type",
                };
                assert_eq!(text, e.to_string(), "{s}");
            },
            (a, b) => panic!("{s}: {a:?} against {b:?}"),
        }
    }
}

#[test]
fn header_steps() {
    assert!(matches!(header_step(None, "", 0), HeaderStep::End));
    assert!(matches!(header_step(None, "Content-Length: 12\r\n", 20), HeaderStep::Next(Some(12))));
    assert!(matches!(header_step(Some(12), "Content-Type: x\r\n", 17), HeaderStep::Next(Some(12))));
    assert!(matches!(header_step(Some(12), "\r\n", 2), HeaderStep::Body(12)));
    match header_step(None, "\r\n", 2) {
        HeaderStep::Fail(LspError::RustAnalyzerComm(m)) => assert_eq!(m, "missing Content-Length header"),
        other => panic!("unexpected {other:?}"),
    }
    match header_step(None, "Content-Length: x\r\n", 19) {
        HeaderStep::Fail(LspError::RustAnalyzerComm(m)) => assert_eq!(m, "invalid digit found in string"),
        other => panic!("unexpected {other:?}"),
    }
}

#[test]
fn responses_reach_their_requests_once() {
    let mut pending: PendingRequests<&str> = PendingRequests::new();
    let a = pending.register("a");
    let b = pending.register("b");
    assert_eq!(pending.route_message(Some(b), true, false), Some("b"));
    assert_eq!(pending.route_message(Some(b), true, false), None);
    assert_eq!(pending.route_message(Some(a), false, false), None);
    assert_eq!(pending.route_message(None, true, false), None);
    assert!(pending.is_waiting(a));
    assert_eq!(pending.route_message(Some(a), false, true), Some("a"));
    assert!(!pending.is_waiting(a));
}

#[test]
fn the_reader_reads_back_what_was_framed() {
    let body = "{\"jsonrpc\":\"2.0\",\"result\":\"\u{e9}t\u{e9}\"}";
    let framed = frame_message(body);
    let (head, rest) = framed.split_once("\r\n").unwrap();
    let header = format!("{head}\r\n");
    let length = match header_step(None, &header, header.len()) {
        HeaderStep::Next(Some(n)) => n,
        other => panic!("unexpected {other:?}"),
    };
    assert_eq!(length, body.len());
    assert!(matches!(header_step(Some(length), "\r\n", 2), HeaderStep::Body(n) if n == body.len()));
    assert_eq!(&rest[2..], body);
}

#[test]
fn decode_response_body_reads_routing_fields() {
    let m = rsc_lsp::ra_proxy::decode_message(br#"{"jsonrpc":"2.0","id":7,"result":{"x":1}}"#).unwrap();
    assert_eq!(m.id, Some(7));
    assert!(m.has_result);
    assert!(!m.has_error);
    assert_eq!(m.message["result"]["x"], serde_json::Value::from(1));
}

#[test]
fn decode_error_response_and_notification() {
    let m = rsc_lsp::ra_proxy::decode_message(br#"{"id":2,"error":{"code":-1}}"#).unwrap();
    assert_eq!((m.id, m.has_result, m.has_error), (Some(2), false, true));
    let n = rsc_lsp::ra_proxy::decode_message(br#"{"method":"window/logMessage","params":{}}"#).unwrap();
    assert_eq!((n.id, n.has_result, n.has_error), (None, false, false));
    let s = rsc_lsp::ra_proxy::decode_message(br#"{"id":"abc","result":null}"#).unwrap();
    assert_eq!((s.id, s.has_result), (None, true));
}

#[test]
fn decode_rejects_non_json_body() {
    match rsc_lsp::ra_proxy::decode_message(b"{not json") {
        Err(rsc_lsp::error::LspError::RustAnalyzerComm(t)) => assert!(!t.is_empty()),
        Err(other) => panic!("unexpected error {other:?}"),
        Ok(_) => panic!("expected a parse error"),
    }
}
