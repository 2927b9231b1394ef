use pipebuf::{PBufState, PipeBuf, PipeBufPair};
use pipebuf_websocket::http::{HttpHeader, ParsedRequest};
use pipebuf_websocket::{ServerError, WebsocketServer};

const REQUEST: &str = "GET /chat HTTP/1.1\r\nHost: localhost\r\nUpgrade: websocket\r\nConnection: Upgrade\r\nSec-WebSocket-Key: Z7OY1UwHOx/nkSz38kfPwg==\r\nSec-WebSocket-Version: 13\r\n\r\n";

const RESPONSE: &str = "HTTP/1.1 101 Switching Protocols\r\nConnection: Upgrade\r\nUpgrade: websocket\r\nSec-WebSocket-Accept: ptPnPeDOTo6khJlzmLhOZSh2tAY=\r\n\r\n";

const RESPONSE_CHAT: &str = "HTTP/1.1 101 Switching Protocols\r\nConnection: Upgrade\r\nUpgrade: websocket\r\nSec-WebSocket-Protocol: chat\r\nSec-WebSocket-Accept: ptPnPeDOTo6khJlzmLhOZSh2tAY=\r\n\r\n";

fn request_with(lines: &[(&str, &str)]) -> Vec<u8> {
    let mut request = b"GET /chat HTTP/1.1\r\n".to_vec();
    for (name, value) in lines {
        request.extend_from_slice(name.as_bytes());
        request.extend_from_slice(b": ");
        request.extend_from_slice(value.as_bytes());
        request.extend_from_slice(b"\r\n");
    }
    request.extend_from_slice(b"\r\n");
    request
}

#[test]
fn handshake_answers_a_valid_request() {
    let mut pair = PipeBufPair::new();
    pair.up.wr().append(REQUEST.as_bytes());
    let server = WebsocketServer::from_http(&mut pair.upper(), None, 1000, 100);
    assert!(matches!(server, Ok(Some(_))));
    assert!(pair.up.rd().is_empty());
    assert_eq!(pair.down.rd().data(), RESPONSE.as_bytes());
    assert_eq!(pair.down.state(), PBufState::Open);
}

#[test]
fn handshake_names_the_subprotocol() {
    let mut pair = PipeBufPair::new();
    pair.up.wr().append(REQUEST.as_bytes());
    let server = WebsocketServer::from_http(&mut pair.upper(), Some("chat"), 1000, 100);
    assert!(matches!(server, Ok(Some(_))));
    assert_eq!(pair.down.rd().data(), RESPONSE_CHAT.as_bytes());
}

#[test]
fn handshake_leaves_what_follows_the_request() {
    let mut pair = PipeBufPair::new();
    pair.up.wr().append(REQUEST.as_bytes());
    pair.up.wr().append(&[0x81, 0x80, 1, 2, 3, 4]);
    pair.down.wr().append(b"queued");
    let server = WebsocketServer::from_http(&mut pair.upper(), None, 1000, 100);
    assert!(matches!(server, Ok(Some(_))));
    assert_eq!(pair.up.rd().data(), &[0x81, 0x80, 1, 2, 3, 4]);
    let mut expected = b"queued".to_vec();
    expected.extend_from_slice(RESPONSE.as_bytes());
    assert_eq!(pair.down.rd().data(), &expected[..]);
}

#[test]
fn handshake_opens_the_connection() {
    let mut pair = PipeBufPair::new();
    pair.up.wr().append(REQUEST.as_bytes());
    let mut server =
        WebsocketServer::from_http(&mut pair.upper(), None, 1000, 100).unwrap().unwrap();
    let queued = pair.down.rd().len();
    pair.down.rd().consume(queued);
    assert_eq!(server.send_text(&mut pair.upper(), "hi"), Ok(()));
    assert_eq!(pair.down.rd().data(), &[129, 2, b'h', b'i']);
    let mut message = PipeBuf::new();
    let mut is_text = false;
    pair.up.wr().append(&[0x82, 0x81, 1, 2, 3, 4, 0x55 ^ 1]);
    assert_eq!(server.receive(&mut pair.upper(), &mut message.wr(), &mut is_text), Ok(true));
    assert_eq!(message.rd().data(), &[0x55]);
}

#[test]
fn handshake_hands_the_limits_to_the_connection() {
    let mut pair = PipeBufPair::new();
    pair.up.wr().append(REQUEST.as_bytes());
    let mut server = WebsocketServer::from_http(&mut pair.upper(), None, 2, 1).unwrap().unwrap();
    let mut message = PipeBuf::new();
    let mut is_text = false;
    pair.up.wr().append(&[0x89, 0x82, 0, 0, 0, 0, b'a', b'b']);
    assert_eq!(
        server.receive(&mut pair.upper(), &mut message.wr(), &mut is_text),
        Err(ServerError::ControlPayloadTooLarge)
    );
    let mut pair = PipeBufPair::new();
    pair.up.wr().append(REQUEST.as_bytes());
    let mut server = WebsocketServer::from_http(&mut pair.upper(), None, 2, 1).unwrap().unwrap();
    pair.up.wr().append(&[0x82, 0x83, 0, 0, 0, 0, 1, 2, 3]);
    assert_eq!(
        server.receive(&mut pair.upper(), &mut message.wr(), &mut is_text),
        Err(ServerError::MessageTooLarge)
    );
}

#[test]
fn handshake_calls_back_with_each_header_line_in_order() {
    let mut pair = PipeBufPair::new();
    pair.up.wr().append(REQUEST.as_bytes());
    let mut seen: Vec<(String, Vec<u8>)> = Vec::new();
    let server = WebsocketServer::from_http_scan(&mut pair.upper(), None, 1000, 100, |name, value| {
        seen.push((name.to_string(), value.to_vec()))
    });
    assert!(matches!(server, Ok(Some(_))));
    let expected: Vec<(String, Vec<u8>)> = vec![
        ("Host".to_string(), b"localhost".to_vec()),
        ("Upgrade".to_string(), b"websocket".to_vec()),
        ("Connection".to_string(), b"Upgrade".to_vec()),
        ("Sec-WebSocket-Key".to_string(), b"Z7OY1UwHOx/nkSz38kfPwg==".to_vec()),
        ("Sec-WebSocket-Version".to_string(), b"13".to_vec()),
    ];
    assert_eq!(seen, expected);
}

#[test]
fn handshake_does_not_call_back_for_an_invalid_request() {
    let mut pair = PipeBufPair::new();
    pair.up.wr().append(b"GET / HTTP/1.1\r\nHost: localhost\r\n\r\n");
    let mut calls = 0;
    let server =
        WebsocketServer::from_http_scan(&mut pair.upper(), None, 1000, 100, |_, _| calls += 1);
    assert!(matches!(server, Err(ServerError::InvalidHandshake)));
    assert_eq!(calls, 0);
}

#[test]
fn handshake_one_byte_at_a_time_consumes_nothing_until_complete() {
    let mut pair = PipeBufPair::new();
    let request = REQUEST.as_bytes();
    for (i, byte) in request.iter().enumerate() {
        pair.up.wr().append(&[*byte]);
        let server = WebsocketServer::from_http(&mut pair.upper(), None, 1000, 100);
        if i + 1 < request.len() {
            assert!(matches!(server, Ok(None)), "after {} bytes", i + 1);
            assert_eq!(pair.up.rd().len(), i + 1);
            assert!(pair.down.rd().is_empty());
        } else {
            assert!(matches!(server, Ok(Some(_))));
            assert!(pair.up.rd().is_empty());
            assert_eq!(pair.down.rd().data(), RESPONSE.as_bytes());
        }
    }
}

#[test]
fn handshake_without_upgrade_is_invalid_and_consumes_nothing() {
    let request = b"GET / HTTP/1.1\r\n\r\n";
    let mut pair = PipeBufPair::new();
    pair.up.wr().append(request);
    let server = WebsocketServer::from_http(&mut pair.upper(), None, 1000, 100);
    assert!(matches!(server, Err(ServerError::InvalidHandshake)));
    assert_eq!(pair.up.rd().data(), request);
    assert!(pair.down.rd().is_empty());
    assert_eq!(pair.down.state(), PBufState::Open);
}

#[test]
fn handshake_with_another_upgrade_is_invalid() {
    let request = request_with(&[("Upgrade", "h2c"), ("Sec-WebSocket-Key", "abc")]);
    let mut pair = PipeBufPair::new();
    pair.up.wr().append(&request);
    let server = WebsocketServer::from_http(&mut pair.upper(), None, 1000, 100);
    assert!(matches!(server, Err(ServerError::InvalidHandshake)));
    assert_eq!(pair.up.rd().data(), &request[..]);
    assert!(pair.down.rd().is_empty());
}

#[test]
fn handshake_on_malformed_http_is_invalid_and_consumes_nothing() {
    let request = b"GET /chat HTTP/9.9\r\nUpgrade: websocket\r\n\r\n";
    let mut pair = PipeBufPair::new();
    pair.up.wr().append(request);
    let server = WebsocketServer::from_http(&mut pair.upper(), None, 1000, 100);
    assert!(matches!(server, Err(ServerError::InvalidHandshake)));
    assert_eq!(pair.up.rd().data(), request);
    assert!(pair.down.rd().is_empty());
}

#[test]
fn handshake_with_more_header_lines_than_slots_is_invalid() {
    let mut lines = vec![("Upgrade", "websocket"), ("Sec-WebSocket-Key", "abc")];
    for _ in 0..31 {
        lines.push(("X-Filler", "x"));
    }
    let request = request_with(&lines);
    let mut pair = PipeBufPair::new();
    pair.up.wr().append(&request);
    let server = WebsocketServer::from_http(&mut pair.upper(), None, 1000, 100);
    assert!(matches!(server, Err(ServerError::InvalidHandshake)));
    assert_eq!(pair.up.rd().len(), request.len());

    // As many lines as there are slots pass.
    lines.pop();
    let request = request_with(&lines);
    let mut pair = PipeBufPair::new();
    pair.up.wr().append(&request);
    let server = WebsocketServer::from_http(&mut pair.upper(), None, 1000, 100);
    assert!(matches!(server, Ok(Some(_))));
    assert!(pair.up.rd().is_empty());
}

#[test]
fn handshake_with_a_key_that_is_too_long_is_invalid() {
    let request = request_with(&[
        ("Upgrade", "websocket"),
        ("Sec-WebSocket-Key", "0123456789012345678901234"),
    ]);
    let mut pair = PipeBufPair::new();
    pair.up.wr().append(&request);
    let server = WebsocketServer::from_http(&mut pair.upper(), None, 1000, 100);
    assert!(matches!(server, Err(ServerError::InvalidHandshake)));
    assert_eq!(pair.up.rd().data(), &request[..]);
    assert!(pair.down.rd().is_empty());
}

#[test]
fn handshake_with_a_subprotocol_that_is_too_long_is_invalid() {
    let request = request_with(&[
        ("Upgrade", "websocket"),
        ("Sec-WebSocket-Key", "Z7OY1UwHOx/nkSz38kfPwg=="),
        ("Sec-WebSocket-Protocol", "chat, a-subprotocol-of-25-bytes"),
    ]);
    let mut pair = PipeBufPair::new();
    pair.up.wr().append(&request);
    let server = WebsocketServer::from_http(&mut pair.upper(), None, 1000, 100);
    assert!(matches!(server, Err(ServerError::InvalidHandshake)));
    assert_eq!(pair.up.rd().data(), &request[..]);
}

#[test]
fn handshake_ignores_a_long_subprotocol_that_is_not_kept() {
    let request = request_with(&[
        ("Upgrade", "websocket"),
        ("Sec-WebSocket-Key", "Z7OY1UwHOx/nkSz38kfPwg=="),
        ("Sec-WebSocket-Protocol", "a, b, c, a-subprotocol-of-more-than-24-bytes"),
    ]);
    let mut pair = PipeBufPair::new();
    pair.up.wr().append(&request);
    let server = WebsocketServer::from_http(&mut pair.upper(), None, 1000, 100);
    assert!(matches!(server, Ok(Some(_))));
    assert!(pair.up.rd().is_empty());
    assert_eq!(pair.down.rd().data(), RESPONSE.as_bytes());
}

#[test]
fn handshake_with_a_value_that_is_no_text_is_invalid() {
    let mut request = b"GET /chat HTTP/1.1\r\nUpgrade: websocket\r\nSec-WebSocket-Key: ".to_vec();
    request.extend_from_slice(&[0xff, 0xfe]);
    request.extend_from_slice(b"\r\n\r\n");
    let mut pair = PipeBufPair::new();
    pair.up.wr().append(&request);
    let server = WebsocketServer::from_http(&mut pair.upper(), None, 1000, 100);
    assert!(matches!(server, Err(ServerError::InvalidHandshake)));
    assert_eq!(pair.up.rd().data(), &request[..]);
}

#[test]
fn handshake_into_a_fixed_pipe_with_room() {
    let mut pair = PipeBufPair::with_fixed_capacities(1024, 512);
    pair.up.wr().append(REQUEST.as_bytes());
    let server = WebsocketServer::from_http(&mut pair.upper(), None, 1000, 100);
    assert!(matches!(server, Ok(Some(_))));
    assert_eq!(pair.down.rd().data(), RESPONSE.as_bytes());
}

#[test]
fn from_request_completes_a_scanned_request() {
    let request = ParsedRequest {
        len: 4,
        headers: vec![
            HttpHeader { name: "UPGRADE".to_string(), value: b"WebSocket".to_vec() },
            HttpHeader {
                name: "sec-websocket-key".to_string(),
                value: b"Z7OY1UwHOx/nkSz38kfPwg==".to_vec(),
            },
        ],
    };
    let mut pair = PipeBufPair::new();
    pair.up.wr().append(b"0123456");
    let mut names = Vec::new();
    let server = WebsocketServer::from_request(
        &mut pair.upper(),
        Some("chat"),
        1000,
        100,
        &request,
        |name, _| names.push(name.to_string()),
    );
    assert!(server.is_ok());
    assert_eq!(pair.up.rd().data(), b"456");
    assert_eq!(pair.down.rd().data(), RESPONSE_CHAT.as_bytes());
    assert_eq!(names, vec!["UPGRADE".to_string(), "sec-websocket-key".to_string()]);
}

#[test]
fn from_request_refuses_a_request_without_upgrade() {
    let request = ParsedRequest {
        len: 4,
        headers: vec![HttpHeader {
            name: "sec-websocket-key".to_string(),
            value: b"Z7OY1UwHOx/nkSz38kfPwg==".to_vec(),
        }],
    };
    let mut pair = PipeBufPair::new();
    pair.up.wr().append(b"0123456");
    let server =
        WebsocketServer::from_request(&mut pair.upper(), None, 1000, 100, &request, |_, _| {});
    assert!(matches!(server, Err(ServerError::InvalidHandshake)));
    assert_eq!(pair.up.rd().data(), b"0123456");
    assert!(pair.down.rd().is_empty());
}
