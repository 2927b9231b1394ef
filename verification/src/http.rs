//! The HTTP side of the handshake: the request scan of `httparse`, the
//! header reader of `embedded_websocket`, and the test that keeps the
//! latter from overrunning its fixed strings.

use vstd::prelude::*;
use vstd::utf8::encode_utf8;
use crate::codec::TOKEN_MAX;

verus! {

/// One header line of a request.
#[derive(Debug, PartialEq, Eq)]
pub struct HttpHeader {
    /// The field name.
    pub name: String,
    /// The raw field value.
    pub value: Vec<u8>,
}

/// A header line as plain values.
pub struct HeaderView {
    pub name: Seq<char>,
    pub value: Seq<u8>,
}

impl View for HttpHeader {
    type V = HeaderView;

    open spec fn view(&self) -> HeaderView {
        HeaderView { name: self.name@, value: self.value@ }
    }
}

/// A complete request: its length in bytes and its header lines in order.
#[derive(Debug, PartialEq, Eq)]
pub struct ParsedRequest {
    /// The bytes that the request takes at the head of the input.
    pub len: usize,
    /// The header lines, in the order of the request.
    pub headers: Vec<HttpHeader>,
}

/// A complete request as plain values.
pub struct RequestView {
    pub len: nat,
    pub headers: Seq<HeaderView>,
}

/// The header lines of `headers` as plain values.
pub open spec fn header_views(headers: Seq<HttpHeader>) -> Seq<HeaderView> {
    headers.map_values(|h: HttpHeader| h@)
}

impl View for ParsedRequest {
    type V = RequestView;

    open spec fn view(&self) -> RequestView {
        RequestView { len: self.len as nat, headers: header_views(self.headers@) }
    }
}

/// A scan's outcome as plain values.
pub open spec fn scan_view(scan: Result<Option<ParsedRequest>, httparse::Error>) -> Result<
    Option<RequestView>,
    httparse::Error,
> {
    match scan {
        Ok(Some(parsed)) => Ok(Some(parsed@)),
        Ok(None) => Ok(None),
        Err(e) => Err(e),
    }
}

/// The header lines that a scan has room for.
pub const MAX_HEADERS: usize = 32;

/// The subprotocols that the header reader keeps.
pub const MAX_PROTOCOLS: usize = 3;

/// What `httparse::Request::parse` makes of `bytes` with `slots` header
/// slots: an error, `None` for a request that is not complete yet, or the
/// complete request.
pub uninterp spec fn http_scan(bytes: Seq<u8>, slots: nat) -> Result<
    Option<RequestView>,
    httparse::Error,
>;

/// What `embedded_websocket::read_http_header` makes of the header lines:
/// an error, `None` for a request that asks for no WebSocket upgrade, or
/// the request's key.
pub uninterp spec fn request_key(headers: Seq<HeaderView>) -> Result<
    Option<Seq<char>>,
    embedded_websocket::Error,
>;

/// The header reader's outcome as plain values.
pub open spec fn key_view(key: Result<Option<String>, embedded_websocket::Error>) -> Result<
    Option<Seq<char>>,
    embedded_websocket::Error,
> {
    match key {
        Ok(Some(text)) => Ok(Some(text@)),
        Ok(None) => Ok(None),
        Err(e) => Err(e),
    }
}

/// An ASCII capital letter becomes its small letter, any other byte stays.
pub open spec fn fold_case(b: u8) -> u8 {
    if 65 <= b <= 90 {
        (b + 32) as u8
    } else {
        b
    }
}

/// The two byte strings are equal but for the case of ASCII letters.
pub open spec fn same_name(a: Seq<u8>, b: Seq<u8>) -> bool {
    &&& a.len() == b.len()
    &&& forall|i: int| 0 <= i < a.len() ==> fold_case(#[trigger] a[i]) == fold_case(b[i])
}

/// The header line lists subprotocols.
pub open spec fn is_protocol_header(h: HeaderView) -> bool {
    same_name(encode_utf8(h.name), encode_utf8("sec-websocket-protocol"@))
}

/// The header line carries the request key.
pub open spec fn is_key_header(h: HeaderView) -> bool {
    same_name(encode_utf8(h.name), encode_utf8("sec-websocket-key"@))
}

/// A comma and a space stand at `at`: the separator of a subprotocol list.
pub open spec fn separator_at(value: Seq<u8>, at: int) -> bool {
    at + 1 < value.len() && value[at] == 44 && value[at + 1] == 32
}

/// Walks a subprotocol list from `at`, where the current item has `run`
/// bytes so far and `used` of the slots are taken. `None` where an item
/// that gets a slot is longer than a slot; else the slots taken at the end.
/// Items that find no free slot are not looked at.
pub open spec fn scan_items(value: Seq<u8>, at: int, run: nat, used: nat) -> Option<nat>
    decreases value.len() - at,
{
    if used >= MAX_PROTOCOLS {
        Some(used)
    } else if at >= value.len() {
        if run <= TOKEN_MAX {
            Some(used + 1)
        } else {
            None
        }
    } else if separator_at(value, at) {
        if run <= TOKEN_MAX {
            scan_items(value, at + 2, 0, used + 1)
        } else {
            None
        }
    } else {
        scan_items(value, at + 1, run + 1, used)
    }
}

/// From the header line `at` on, with `used` subprotocol slots taken: every
/// key and every subprotocol that gets a slot is at most 24 bytes long.
pub open spec fn headers_fit_from(headers: Seq<HeaderView>, at: int, used: nat) -> bool
    decreases headers.len() - at,
{
    if at >= headers.len() || at < 0 {
        true
    } else if is_protocol_header(headers[at]) {
        match scan_items(headers[at].value, 0, 0, used) {
            Some(taken) => headers_fit_from(headers, at + 1, taken),
            None => false,
        }
    } else if is_key_header(headers[at]) {
        headers[at].value.len() <= TOKEN_MAX && headers_fit_from(headers, at + 1, used)
    } else {
        headers_fit_from(headers, at + 1, used)
    }
}

/// The header reader can take these header lines: what it copies into its
/// fixed strings fits them.
pub open spec fn headers_fit(headers: Seq<HeaderView>) -> bool {
    headers_fit_from(headers, 0, 0)
}

/// `httparse::Request::parse` with `MAX_HEADERS` header slots, the result
/// copied into owned values. A complete request is no longer than the
/// input.
#[verifier::external_body]
pub(crate) fn scan_request(bytes: &[u8]) -> (r: Result<Option<ParsedRequest>, httparse::Error>)
    ensures
        scan_view(r) == http_scan(bytes@, MAX_HEADERS as nat),
        r matches Ok(Some(request)) ==> request.len <= bytes@.len(),
{
    let mut slots = [httparse::EMPTY_HEADER; MAX_HEADERS];
    let mut request = httparse::Request::new(&mut slots);
    match request.parse(bytes)? {
        httparse::Status::Partial => Ok(None),
        httparse::Status::Complete(len) => Ok(Some(ParsedRequest {
            len,
            headers: request.headers.iter().map(|h| HttpHeader {
                name: h.name.to_string(),
                value: h.value.to_vec(),
            }).collect(),
        })),
    }
}

/// `embedded_websocket::read_http_header` on the header lines; of the
/// context it returns, the key. The key comes from a fixed string of 24
/// bytes. The outside function panics where a key, or a subprotocol that it
/// keeps, is longer than that.
#[verifier::external_body]
pub(crate) fn websocket_key(headers: &Vec<HttpHeader>) -> (r: Result<
    Option<String>,
    embedded_websocket::Error,
>)
    requires
        headers_fit(header_views(headers@)),
    ensures
        key_view(r) == request_key(header_views(headers@)),
        r matches Ok(Some(key)) ==> encode_utf8(key@).len() <= TOKEN_MAX,
{
    let lines = headers.iter().map(|h| (h.name.as_str(), h.value.as_slice()));
    let context = embedded_websocket::read_http_header(lines)?;
    Ok(context.map(|c| c.sec_websocket_key.as_str().to_string()))
}

/// Whether two names are equal but for the case of ASCII letters.
pub fn names_match(name: &str, other: &str) -> (same: bool)
    ensures
        same == same_name(encode_utf8(name@), encode_utf8(other@)),
{
    let a = name.as_bytes();
    let b = other.as_bytes();
    if a.len() != b.len() {
        return false;
    }
    let mut i: usize = 0;
    while i < a.len()
        invariant
            a@ == encode_utf8(name@),
            b@ == encode_utf8(other@),
            a@.len() == b@.len(),
            i <= a@.len(),
            forall|j: int| 0 <= j < i ==> fold_case(#[trigger] a@[j]) == fold_case(b@[j]),
        decreases a@.len() - i,
    {
        if lower(a[i]) != lower(b[i]) {
            assert(fold_case(a@[i as int]) != fold_case(b@[i as int]));
            return false;
        }
        i += 1;
    }
    true
}

/// The small letter of an ASCII capital, any other byte unchanged.
pub fn lower(b: u8) -> (folded: u8)
    ensures
        folded == fold_case(b),
{
    if 65 <= b && b <= 90 {
        b + 32
    } else {
        b
    }
}

/// Walks one subprotocol list with `used` slots taken before it.
pub fn protocols_fit(value: &[u8], used: usize) -> (after: Option<usize>)
    requires
        used <= MAX_PROTOCOLS,
    ensures
        after matches Some(n) ==> scan_items(value@, 0, 0, used as nat) == Some(n as nat) && n
            <= MAX_PROTOCOLS,
        after is None ==> scan_items(value@, 0, 0, used as nat) is None,
{
    let mut at: usize = 0;
    let mut run: usize = 0;
    let mut taken: usize = used;
    while taken < MAX_PROTOCOLS && at < value.len()
        invariant
            at <= value@.len(),
            run <= at,
            taken <= MAX_PROTOCOLS,
            scan_items(value@, 0, 0, used as nat) == scan_items(
                value@,
                at as int,
                run as nat,
                taken as nat,
            ),
        decreases value@.len() - at,
    {
        if at + 1 < value.len() && value[at] == 44 && value[at + 1] == 32 {
            if run > TOKEN_MAX {
                return None;
            }
            taken += 1;
            run = 0;
            at += 2;
        } else {
            run += 1;
            at += 1;
        }
    }
    if taken >= MAX_PROTOCOLS {
        Some(taken)
    } else if run <= TOKEN_MAX {
        Some(taken + 1)
    } else {
        None
    }
}

/// Whether the header reader can take these header lines.
pub fn check_headers(headers: &Vec<HttpHeader>) -> (fit: bool)
    ensures
        fit == headers_fit(header_views(headers@)),
{
    let mut at: usize = 0;
    let mut used: usize = 0;
    while at < headers.len()
        invariant
            at <= headers@.len(),
            used <= MAX_PROTOCOLS,
            headers_fit(header_views(headers@)) == headers_fit_from(
                header_views(headers@),
                at as int,
                used as nat,
            ),
        decreases headers@.len() - at,
    {
        let header = &headers[at];
        assert(header_views(headers@)[at as int] == header@);
        if names_match(header.name.as_str(), "sec-websocket-protocol") {
            match protocols_fit(header.value.as_slice(), used) {
                Some(taken) => {
                    used = taken;
                },
                None => {
                    return false;
                },
            }
        } else if names_match(header.name.as_str(), "sec-websocket-key") {
            if header.value.len() > TOKEN_MAX {
                return false;
            }
        }
        at += 1;
    }
    true
}

} // verus!
