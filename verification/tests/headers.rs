use pipebuf_websocket::http::{check_headers, lower, names_match, protocols_fit, HttpHeader};

fn header(name: &str, value: &[u8]) -> HttpHeader {
    HttpHeader { name: name.to_string(), value: value.to_vec() }
}

#[test]
fn lower_folds_capitals_only() {
    assert_eq!(lower(b'A'), b'a');
    assert_eq!(lower(b'Z'), b'z');
    assert_eq!(lower(b'a'), b'a');
    assert_eq!(lower(b'@'), b'@');
    assert_eq!(lower(b'['), b'[');
    assert_eq!(lower(b'-'), b'-');
    assert_eq!(lower(0xC4), 0xC4);
}

#[test]
fn names_match_ignores_ascii_case() {
    assert!(names_match("Sec-WebSocket-Key", "sec-websocket-key"));
    assert!(names_match("SEC-WEBSOCKET-KEY", "sec-websocket-key"));
    assert!(names_match("", ""));
    assert!(!names_match("Sec-WebSocket-Key", "sec-websocket-protocol"));
    assert!(!names_match("sec-websocket-ke", "sec-websocket-key"));
    assert!(!names_match("sec_websocket-key", "sec-websocket-key"));
    assert!(!names_match("\u{e4}", "\u{c4}"));
}

#[test]
fn protocols_fit_counts_the_items_of_a_list() {
    assert_eq!(protocols_fit(b"chat", 0), Some(1));
    assert_eq!(protocols_fit(b"chat, superchat", 0), Some(2));
    assert_eq!(protocols_fit(b"a, b, c", 0), Some(3));
    assert_eq!(protocols_fit(b"a, b", 2), Some(3));
    assert_eq!(protocols_fit(b"", 0), Some(1));
    assert_eq!(protocols_fit(b"a, ", 0), Some(2));
    assert_eq!(protocols_fit(b", , ", 0), Some(3));
    assert_eq!(protocols_fit(b"a,b", 0), Some(1));
}

#[test]
fn protocols_fit_refuses_a_long_item_that_gets_a_slot() {
    let long = [b'x'; 25];
    let fits = [b'x'; 24];
    assert_eq!(protocols_fit(&long, 0), None);
    assert_eq!(protocols_fit(&fits, 0), Some(1));
    let mut list = b"a, ".to_vec();
    list.extend_from_slice(&long);
    assert_eq!(protocols_fit(&list, 0), None);
    assert_eq!(protocols_fit(&list, 1), None);
    let mut list = long.to_vec();
    list.extend_from_slice(b", a");
    assert_eq!(protocols_fit(&list, 0), None);
    // Commas without a space do not separate.
    assert_eq!(protocols_fit(b"aaaaaaaaaaaa,bbbbbbbbbbbbb", 0), None);
}

#[test]
fn protocols_fit_ignores_items_without_a_slot() {
    let long = [b'x'; 25];
    assert_eq!(protocols_fit(&long, 3), Some(3));
    let mut list = b"a, ".to_vec();
    list.extend_from_slice(&long);
    assert_eq!(protocols_fit(&list, 2), Some(3));
    let mut list = b"a, b, c, ".to_vec();
    list.extend_from_slice(&long);
    assert_eq!(protocols_fit(&list, 0), Some(3));
}

#[test]
fn check_headers_accepts_an_ordinary_request() {
    let headers = vec![
        header("Host", b"localhost"),
        header("Upgrade", b"websocket"),
        header("Sec-WebSocket-Key", b"Z7OY1UwHOx/nkSz38kfPwg=="),
        header("Sec-WebSocket-Protocol", b"chat, superchat"),
        header("User-Agent", &[b'x'; 200]),
    ];
    assert!(check_headers(&headers));
    assert!(check_headers(&Vec::new()));
}

#[test]
fn check_headers_refuses_a_long_key() {
    let headers = vec![header("sec-websocket-KEY", &[b'k'; 25])];
    assert!(!check_headers(&headers));
    let headers = vec![header("sec-websocket-KEY", &[b'k'; 24])];
    assert!(check_headers(&headers));
}

#[test]
fn check_headers_counts_slots_over_all_protocol_lines() {
    let long = [b'x'; 25];
    let taken = vec![
        header("Sec-WebSocket-Protocol", b"a, b"),
        header("Sec-WebSocket-Protocol", b"c"),
        header("Sec-WebSocket-Protocol", &long),
    ];
    assert!(check_headers(&taken));
    let free = vec![
        header("Sec-WebSocket-Protocol", b"a, b"),
        header("Sec-WebSocket-Protocol", &long),
    ];
    assert!(!check_headers(&free));
}
