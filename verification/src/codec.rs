//! The frame codec of `embedded_websocket`, as this library sees it.
//!
//! The codec is a state machine of the outside crate. Here its value is
//! opaque; what a call does is a function of that value and of the call's
//! arguments, and each such function has a name. The contracts of the
//! `external_body` functions below tie the calls to those names and state a
//! few plain facts from the codec's source. They are believed, not proved.

use vstd::prelude::*;

verus! {

/// `embedded_websocket::Error`.
#[verifier::external_type_specification]
pub struct ExCodecError(embedded_websocket::Error);

/// `httparse::Error`, which `embedded_websocket::Error` can carry.
#[verifier::external_type_specification]
#[verifier::external_body]
pub struct ExHttpError(httparse::Error);

/// `embedded_websocket::WebSocketState`, the codec's public `state` field.
#[verifier::external_type_specification]
pub struct ExWebSocketState(embedded_websocket::WebSocketState);

/// `embedded_websocket::WebSocketReceiveMessageType`.
#[verifier::external_type_specification]
pub struct ExReceiveMessageType(embedded_websocket::WebSocketReceiveMessageType);

/// `embedded_websocket::WebSocketSendMessageType`.
#[verifier::external_type_specification]
pub struct ExSendMessageType(embedded_websocket::WebSocketSendMessageType);

/// `embedded_websocket::WebSocketCloseStatusCode`. Opaque here.
#[verifier::external_type_specification]
#[verifier::external_body]
pub struct ExCloseStatusCode(embedded_websocket::WebSocketCloseStatusCode);

/// `embedded_websocket::WebSocketReadResult`, what one decode step reports.
#[verifier::external_type_specification]
pub struct ExReadResult(embedded_websocket::WebSocketReadResult);

/// A server-side frame codec: an `embedded_websocket::WebSocketServer`.
///
/// The verifier cannot look inside (the outside type is bounded by traits
/// that it does not know), so the struct is opaque to it. Ordinary code may
/// build one from a codec whose handshake was done elsewhere.
#[verifier::external_body]
pub struct Codec {
    pub ws: embedded_websocket::WebSocketServer,
}

/// The codec's `state` field.
pub uninterp spec fn codec_state(codec: Codec) -> embedded_websocket::WebSocketState;

/// The codec decodes frames in this state.
pub open spec fn can_read(state: embedded_websocket::WebSocketState) -> bool {
    state == embedded_websocket::WebSocketState::Open
        || state == embedded_websocket::WebSocketState::CloseSent
}

/// The codec encodes frames in this state.
pub open spec fn can_write(state: embedded_websocket::WebSocketState) -> bool {
    state == embedded_websocket::WebSocketState::Open
        || state == embedded_websocket::WebSocketState::CloseReceived
}

/// One decode step: what `WebSocket::read` returns, the payload bytes it
/// produced, and the codec afterwards.
pub struct ReadStep {
    pub result: Result<embedded_websocket::WebSocketReadResult, embedded_websocket::Error>,
    pub bytes: Seq<u8>,
    pub next: Codec,
}

/// The decode step of `codec` on the input `from` with `room` bytes to write
/// to.
pub uninterp spec fn read_step(codec: Codec, from: Seq<u8>, room: nat) -> ReadStep;

/// The state in which a decode step that reported `kind` leaves the codec.
pub open spec fn state_after_read(
    before: embedded_websocket::WebSocketState,
    kind: embedded_websocket::WebSocketReceiveMessageType,
) -> embedded_websocket::WebSocketState {
    match kind {
        embedded_websocket::WebSocketReceiveMessageType::CloseCompleted =>
            embedded_websocket::WebSocketState::Closed,
        embedded_websocket::WebSocketReceiveMessageType::CloseMustReply =>
            embedded_websocket::WebSocketState::CloseReceived,
        _ => before,
    }
}

/// What the codec's source shows of every successful decode step: it reads
/// no more than it was given, produces no more than it read nor than it had
/// room for, ran on a codec that decodes, and moves the codec's state only
/// on a close frame.
pub open spec fn read_step_sound(codec: Codec, from: Seq<u8>, room: nat) -> bool {
    let step = read_step(codec, from, room);
    step.result matches Ok(rr) ==> {
        &&& rr.len_from <= from.len()
        &&& rr.len_to <= rr.len_from
        &&& rr.len_to <= room
        &&& step.bytes.len() == rr.len_to
        &&& can_read(codec_state(codec))
        &&& codec_state(step.next) == state_after_read(codec_state(codec), rr.message_type)
    }
}

/// One encode step: what `WebSocket::write` returns, the frame it wrote, and
/// the codec afterwards.
pub struct WriteStep {
    pub result: Result<usize, embedded_websocket::Error>,
    pub frame: Seq<u8>,
    pub next: Codec,
}

/// The encode step of `codec` for a frame of type `kind` with the payload
/// `payload`, final or not, given `room` bytes to write to.
pub uninterp spec fn write_step(
    codec: Codec,
    kind: embedded_websocket::WebSocketSendMessageType,
    end_of_message: bool,
    payload: Seq<u8>,
    room: nat,
) -> WriteStep;

/// The state in which a successful encode step of `kind` leaves the codec.
pub open spec fn state_after_write(
    before: embedded_websocket::WebSocketState,
    kind: embedded_websocket::WebSocketSendMessageType,
) -> embedded_websocket::WebSocketState {
    match kind {
        embedded_websocket::WebSocketSendMessageType::CloseReply =>
            embedded_websocket::WebSocketState::Closed,
        _ => before,
    }
}

/// What the codec's source shows of every encode step: it succeeds only on
/// a codec that encodes, and there whenever the room holds the payload and
/// the longest frame header (10 bytes); the frame is as long as the count
/// returned, fits the room, and ends with the payload as it was given (a
/// server does not mask); only a close reply moves the codec's state.
pub open spec fn write_step_sound(
    codec: Codec,
    kind: embedded_websocket::WebSocketSendMessageType,
    end_of_message: bool,
    payload: Seq<u8>,
    room: nat,
) -> bool {
    let step = write_step(codec, kind, end_of_message, payload, room);
    &&& step.result is Ok ==> can_write(codec_state(codec))
    &&& can_write(codec_state(codec)) && payload.len() + 10 <= room ==> step.result is Ok
    &&& step.result matches Ok(n) ==> {
        &&& n <= room
        &&& step.frame.len() == n
        &&& payload.len() <= n
        &&& step.frame.skip(n - payload.len()) == payload
        &&& codec_state(step.next) == state_after_write(codec_state(codec), kind)
    }
}

/// The handshake response that `WebSocket::server_accept` builds for the
/// request key `key` and the chosen subprotocol, or `None` where it builds
/// none.
pub uninterp spec fn accept_reply(key: Seq<char>, subprotocol: Option<Seq<char>>) -> Option<
    Seq<u8>,
>;

/// The text of an optional string slice.
pub open spec fn text_of(s: Option<&str>) -> Option<Seq<char>> {
    match s {
        Some(text) => Some(text@),
        None => None,
    }
}

/// The longest key or subprotocol that the codec's fixed strings hold, in
/// bytes.
pub const TOKEN_MAX: usize = 24;

/// The room that the handshake response is given, in bytes.
pub const REPLY_ROOM: usize = 1024;

/// `WebSocketServer::new_server`: a codec in the state `None`.
#[verifier::external_body]
pub(crate) fn codec_new() -> (codec: Codec)
    ensures
        codec_state(codec) == embedded_websocket::WebSocketState::None,
{
    Codec { ws: embedded_websocket::WebSocketServer::new_server() }
}

/// `WebSocket::server_accept` on a codec that is not open yet. Writes the
/// handshake response to the head of `to` and opens the codec, or fails and
/// writes nothing that counts. The outside function panics on a key or
/// subprotocol of more than 24 bytes (they are copied into fixed strings)
/// and when `to` is shorter than the response, which never exceeds 1024
/// bytes.
#[verifier::external_body]
pub(crate) fn codec_accept(
    codec: &mut Codec,
    key: &str,
    subprotocol: Option<&str>,
    to: &mut [u8],
) -> (r: Result<usize, embedded_websocket::Error>)
    requires
        key.len() <= TOKEN_MAX,
        subprotocol matches Some(text) ==> text.len() <= TOKEN_MAX,
        old(to)@.len() >= REPLY_ROOM,
        codec_state(*old(codec)) != embedded_websocket::WebSocketState::Open,
    ensures
        final(to)@.len() == old(to)@.len(),
        r is Ok <==> accept_reply(key@, text_of(subprotocol)) is Some,
        r matches Ok(n) ==> {
            &&& n <= final(to)@.len()
            &&& final(to)@.take(n as int) == accept_reply(key@, text_of(subprotocol))->0
            &&& codec_state(*final(codec)) == embedded_websocket::WebSocketState::Open
        },
{
    let key = embedded_websocket::WebSocketKey::from(key);
    let subprotocol = subprotocol.map(embedded_websocket::WebSocketSubProtocol::from);
    codec.ws.server_accept(&key, subprotocol.as_ref(), to)
}

/// `WebSocket::read`: one decode step on the input `from`, with `to` as the
/// room for the payload. The payload bytes stand at the head of `to`.
#[verifier::external_body]
pub(crate) fn codec_read(codec: &mut Codec, from: &[u8], to: &mut [u8]) -> (r: Result<
    embedded_websocket::WebSocketReadResult,
    embedded_websocket::Error,
>)
    ensures
        r == read_step(*old(codec), from@, old(to)@.len()).result,
        *final(codec) == read_step(*old(codec), from@, old(to)@.len()).next,
        final(to)@.len() == old(to)@.len(),
        read_step_sound(*old(codec), from@, old(to)@.len()),
        r matches Ok(rr) ==> final(to)@.take(rr.len_to as int) == read_step(
            *old(codec),
            from@,
            old(to)@.len(),
        ).bytes,
{
    codec.ws.read(from, to)
}

/// `WebSocket::write`: one encode step. The frame stands at the head of
/// `to`.
#[verifier::external_body]
pub(crate) fn codec_write(
    codec: &mut Codec,
    kind: embedded_websocket::WebSocketSendMessageType,
    end_of_message: bool,
    payload: &[u8],
    to: &mut [u8],
) -> (r: Result<usize, embedded_websocket::Error>)
    ensures
        r == write_step(*old(codec), kind, end_of_message, payload@, old(to)@.len()).result,
        *final(codec) == write_step(*old(codec), kind, end_of_message, payload@, old(to)@.len()).next,
        final(to)@.len() == old(to)@.len(),
        write_step_sound(*old(codec), kind, end_of_message, payload@, old(to)@.len()),
        r matches Ok(n) ==> final(to)@.take(n as int) == write_step(
            *old(codec),
            kind,
            end_of_message,
            payload@,
            old(to)@.len(),
        ).frame,
{
    codec.ws.write(kind, end_of_message, payload, to)
}

} // verus!
