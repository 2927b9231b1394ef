//! The WebSocket server endpoint: handshake, receive loop and send path.
//!
//! Each function here is proved to do what the model says of it. A function
//! with a `requires` has a `checked_` twin without one, which tests the
//! conditions first and does nothing where they fail.

use vstd::prelude::*;
use vstd::slice::slice_subrange;
use crate::codec::{
    can_write, codec_accept, codec_new, codec_read, codec_state, codec_write, state_after_write,
    text_of, Codec, REPLY_ROOM, TOKEN_MAX,
};
use crate::error::ServerError;
use crate::http::{check_headers, scan_request, websocket_key, ParsedRequest};
use crate::model::{
    control_step, data_step, handshake, handshake_ready, is_control, receive_ready, reply_room,
    run, send_ready, transmit, upgrade_of, Flow, Outcome, ServerView, Session, Upgrade,
    FRAME_OVERHEAD,
};
use crate::pipe::{
    has_room, rd_bytes, rd_consume, rd_data, wr_close, wr_commit, wr_exceeds_limit, wr_free_space,
    wr_is_eof, wr_push, wr_reserved, wr_space, wr_view, PipeView,
};

verus! {

/// One WebSocket connection on the server's side: the frame codec, the two
/// limits, and the payload of the control frame that is arriving.
pub struct WebsocketServer {
    ws: Codec,
    in_data: Vec<u8>,
    max_msg_len: usize,
    max_aux_len: usize,
}

impl View for WebsocketServer {
    type V = ServerView;

    closed spec fn view(&self) -> ServerView {
        ServerView {
            codec: self.ws,
            pending: self.in_data@,
            max_message: self.max_msg_len,
            max_control: self.max_aux_len,
        }
    }
}

/// The session that a call on `server` with these pipes works on.
pub open spec fn session_of(
    server: ServerView,
    pb: pipebuf::PBufRdWr<'_, u8>,
    message: pipebuf::PBufWr<'_, u8>,
    is_text: bool,
) -> Session {
    Session {
        server,
        input: rd_data(pb.rd),
        output: wr_view(pb.wr),
        message: wr_view(message),
        is_text,
    }
}

/// What a handshake on `before` with the outcome `r` has left in `after`,
/// as the model's `expected` has it: on an upgrade an open connection with
/// the limits given, the request gone from the input and the response
/// queued; else the pipes as they were.
pub open spec fn handshake_done(
    expected: Result<Option<Upgrade>, ServerError>,
    before: pipebuf::PBufRdWr<'_, u8>,
    after: pipebuf::PBufRdWr<'_, u8>,
    max_msg_len: usize,
    max_aux_len: usize,
    r: Result<Option<WebsocketServer>, ServerError>,
) -> bool {
    match expected {
        Ok(Some(upgrade)) => {
            &&& r matches Ok(Some(server))
            &&& server@.pending == Seq::<u8>::empty()
            &&& server@.max_message == max_msg_len
            &&& server@.max_control == max_aux_len
            &&& codec_state(server@.codec) == embedded_websocket::WebSocketState::Open
            &&& upgrade.consumed <= rd_data(before.rd).len()
            &&& rd_data(after.rd) == rd_data(before.rd).skip(upgrade.consumed as int)
            &&& wr_view(after.wr) == wr_view(before.wr).appended(upgrade.reply)
        },
        Ok(None) => {
            &&& r matches Ok(None)
            &&& rd_data(after.rd) == rd_data(before.rd)
            &&& wr_view(after.wr) == wr_view(before.wr)
        },
        Err(e) => {
            &&& r == Err::<Option<WebsocketServer>, ServerError>(e)
            &&& rd_data(after.rd) == rd_data(before.rd)
            &&& wr_view(after.wr) == wr_view(before.wr)
        },
    }
}

/// What sending one frame of `kind` with `payload` has come to, as the
/// model's `transmit` has it: on success the frame is queued, with a flush
/// mark behind it where `push` is set; else nothing is queued and the error
/// is `ConnectionNotOpen`. Of the connection only the codec moves.
pub open spec fn send_done(
    before: ServerView,
    after: ServerView,
    output_before: PipeView,
    output_after: PipeView,
    kind: embedded_websocket::WebSocketSendMessageType,
    end_of_message: bool,
    payload: Seq<u8>,
    push: bool,
    r: Result<(), ServerError>,
) -> bool {
    let sent = transmit(before.codec, output_before, kind, end_of_message, payload, push);
    &&& after == (ServerView { codec: sent.codec, ..before })
    &&& output_after == sent.output
    &&& r is Ok <==> sent.ok
    &&& r matches Err(e) ==> e == ServerError::ConnectionNotOpen
}

/// Encodes one frame into free space of the output pipe and commits it.
/// Nothing is committed where the pipe is at end-of-stream or the codec
/// refuses.
fn frame_out(
    codec: &mut Codec,
    wr: &mut pipebuf::PBufWr<'_, u8>,
    kind: embedded_websocket::WebSocketSendMessageType,
    end_of_message: bool,
    payload: &[u8],
) -> (ok: bool)
    requires
        send_ready(wr_view(*old(wr)), payload@.len()),
    ensures
        ({
            let sent = transmit(
                *old(codec),
                wr_view(*old(wr)),
                kind,
                end_of_message,
                payload@,
                false,
            );
            &&& *final(codec) == sent.codec
            &&& wr_view(*final(wr)) == sent.output
            &&& ok == sent.ok
        }),
        ok <==> !wr_view(*old(wr)).state.is_eof() && can_write(codec_state(*old(codec))),
        ok ==> codec_state(*final(codec)) == state_after_write(codec_state(*old(codec)), kind),
        ok ==> wr_view(*final(wr)).ends_with(payload@),
        wr_view(*final(wr)).data.len() <= wr_view(*old(wr)).data.len() + payload@.len()
            + FRAME_OVERHEAD,
{
    if wr_is_eof(wr) {
        return false;
    }
    let reserve = FRAME_OVERHEAD + payload.len();
    let room = wr_space(wr, reserve);
    match codec_write(codec, kind, end_of_message, payload, room) {
        Ok(used) => {
            wr_commit(wr, used);
            proof {
                // The tail of the pipe is the tail of the frame.
                let frame = wr_view(*wr).data.skip(wr_view(*old(wr)).data.len() as int);
                assert(frame.skip(used - payload@.len()) == payload@);
                assert(wr_view(*wr).data.skip(wr_view(*wr).data.len() - payload@.len())
                    == frame.skip(used - payload@.len()));
            }
            true
        },
        Err(_) => false,
    }
}

/// Whether `free` bytes hold all that one call of the receive loop can
/// queue, given the control payload pending and the input at hand.
fn holds_replies(free: usize, pending: usize, input: usize) -> (ok: bool)
    ensures
        ok == (reply_room(pending as nat, input as nat) <= free),
{
    assert(FRAME_OVERHEAD + 1 == 13);
    let need: u128 = pending as u128 + 13 * (input as u128) + FRAME_OVERHEAD as u128;
    need <= free as u128
}

impl WebsocketServer {
    /// Tries to read a WebSocket handshake at the head of the input pipe.
    ///
    /// - `Ok(None)`: the request is not complete yet. Nothing is consumed
    ///   or queued; call again when more input has arrived.
    /// - `Ok(Some(server))`: the request was a valid upgrade. It is
    ///   consumed, to its last byte and no further, the response is queued
    ///   on the output pipe, and the connection is open, with `max_msg_len`
    ///   as the limit on the unread bytes of the message buffer and
    ///   `max_aux_len` as the limit on the payload of a control frame.
    ///   `header_cb` has been called with the name and the raw value of
    ///   each header line, in the order of the request.
    /// - `Err(InvalidHandshake)`: the bytes are no valid upgrade. Nothing
    ///   is consumed or queued, so that the input can be tried as another
    ///   protocol.
    ///
    /// `subprotocol` is the subprotocol to name in the response, if any:
    /// at most 24 bytes. The output pipe must be open, and have room for
    /// 1024 bytes where its capacity is fixed.
    pub fn from_http_scan<F: FnMut(&str, &[u8])>(
        pb: &mut pipebuf::PBufRdWr<'_, u8>,
        subprotocol: Option<&str>,
        max_msg_len: usize,
        max_aux_len: usize,
        header_cb: F,
    ) -> (r: Result<Option<Self>, ServerError>)
        requires
            handshake_ready(wr_view(old(pb).wr), subprotocol),
            forall|name: &str, value: &[u8]| call_requires(header_cb, (name, value)),
        ensures
            handshake_done(
                handshake(rd_data(old(pb).rd), text_of(subprotocol)),
                *old(pb),
                *final(pb),
                max_msg_len,
                max_aux_len,
                r,
            ),
    {
        let request = match scan_request(rd_bytes(&pb.rd)) {
            Ok(Some(request)) => request,
            Ok(None) => {
                return Ok(None);
            },
            Err(_) => {
                return Err(ServerError::InvalidHandshake);
            },
        };
        match Self::from_request(pb, subprotocol, max_msg_len, max_aux_len, &request, header_cb) {
            Ok(server) => Ok(Some(server)),
            Err(e) => Err(e),
        }
    }

    /// As `from_http_scan`, but on any output pipe and with any
    /// subprotocol: `None`, with nothing done, where `from_http_scan` could
    /// not be called.
    pub fn checked_from_http_scan<F: FnMut(&str, &[u8])>(
        pb: &mut pipebuf::PBufRdWr<'_, u8>,
        subprotocol: Option<&str>,
        max_msg_len: usize,
        max_aux_len: usize,
        header_cb: F,
    ) -> (r: Option<Result<Option<Self>, ServerError>>)
        requires
            forall|name: &str, value: &[u8]| call_requires(header_cb, (name, value)),
        ensures
            r is Some <==> handshake_ready(wr_view(old(pb).wr), subprotocol),
            r matches Some(done) ==> handshake_done(
                handshake(rd_data(old(pb).rd), text_of(subprotocol)),
                *old(pb),
                *final(pb),
                max_msg_len,
                max_aux_len,
                done,
            ),
            r is None ==> rd_data(final(pb).rd) == rd_data(old(pb).rd) && wr_view(final(pb).wr)
                == wr_view(old(pb).wr),
    {
        let fits = match subprotocol {
            Some(text) => text.len() <= TOKEN_MAX,
            None => true,
        };
        if !fits || wr_is_eof(&pb.wr) || !has_room(&pb.wr, REPLY_ROOM) {
            return None;
        }
        Some(Self::from_http_scan(pb, subprotocol, max_msg_len, max_aux_len, header_cb))
    }

    /// As `from_http_scan`, for a caller that has no use for the header
    /// lines.
    pub fn from_http(
        pb: &mut pipebuf::PBufRdWr<'_, u8>,
        subprotocol: Option<&str>,
        max_msg_len: usize,
        max_aux_len: usize,
    ) -> (r: Result<Option<Self>, ServerError>)
        requires
            handshake_ready(wr_view(old(pb).wr), subprotocol),
        ensures
            handshake_done(
                handshake(rd_data(old(pb).rd), text_of(subprotocol)),
                *old(pb),
                *final(pb),
                max_msg_len,
                max_aux_len,
                r,
            ),
    {
        Self::from_http_scan(
            pb,
            subprotocol,
            max_msg_len,
            max_aux_len,
            |_name: &str, _value: &[u8]| {},
        )
    }

    /// Completes the handshake for a request that the scan found complete
    /// at the head of the input pipe.
    ///
    /// Where the header lines fit the header reader, ask for a WebSocket
    /// upgrade with a key, and the codec builds a response: the response is
    /// queued, the request consumed, `header_cb` called for each header
    /// line, and the open connection returned. Else nothing is consumed or
    /// queued and the error is `InvalidHandshake`.
    pub fn from_request<F: FnMut(&str, &[u8])>(
        pb: &mut pipebuf::PBufRdWr<'_, u8>,
        subprotocol: Option<&str>,
        max_msg_len: usize,
        max_aux_len: usize,
        request: &ParsedRequest,
        mut header_cb: F,
    ) -> (r: Result<Self, ServerError>)
        requires
            request.len <= rd_data(old(pb).rd).len(),
            handshake_ready(wr_view(old(pb).wr), subprotocol),
            forall|name: &str, value: &[u8]| call_requires(header_cb, (name, value)),
        ensures
            match upgrade_of(request@, text_of(subprotocol)) {
                Some(upgrade) => {
                    &&& r matches Ok(server)
                    &&& server@.pending == Seq::<u8>::empty()
                    &&& server@.max_message == max_msg_len
                    &&& server@.max_control == max_aux_len
                    &&& codec_state(server@.codec) == embedded_websocket::WebSocketState::Open
                    &&& rd_data(final(pb).rd) == rd_data(old(pb).rd).skip(request.len as int)
                    &&& wr_view(final(pb).wr) == wr_view(old(pb).wr).appended(upgrade.reply)
                },
                None => {
                    &&& r == Err::<Self, ServerError>(ServerError::InvalidHandshake)
                    &&& rd_data(final(pb).rd) == rd_data(old(pb).rd)
                    &&& wr_view(final(pb).wr) == wr_view(old(pb).wr)
                },
            },
    {
        // The header reader copies keys and subprotocols into fixed strings.
        if !check_headers(&request.headers) {
            return Err(ServerError::InvalidHandshake);
        }
        let key = match websocket_key(&request.headers) {
            Ok(Some(key)) => key,
            _ => {
                return Err(ServerError::InvalidHandshake);
            },
        };
        let mut ws = codec_new();
        let room = wr_space(&mut pb.wr, REPLY_ROOM);
        let reply_len = match codec_accept(&mut ws, key.as_str(), subprotocol, room) {
            Ok(len) => len,
            Err(_) => {
                return Err(ServerError::InvalidHandshake);
            },
        };
        let mut line: usize = 0;
        while line < request.headers.len()
            invariant
                forall|name: &str, value: &[u8]| call_requires(header_cb, (name, value)),
            decreases request.headers.len() - line,
        {
            let header = &request.headers[line];
            header_cb(header.name.as_str(), header.value.as_slice());
            line += 1;
        }
        wr_commit(&mut pb.wr, reply_len);
        rd_consume(&mut pb.rd, request.len);
        Ok(Self::from_wss(ws, max_msg_len, max_aux_len))
    }

    /// A connection around a codec whose handshake is done, with the limit
    /// `max_msg_len` on the unread bytes of the message buffer and the
    /// limit `max_aux_len` on the payload of a control frame.
    pub fn from_wss(ws: Codec, max_msg_len: usize, max_aux_len: usize) -> (server: Self)
        ensures
            server@ == (ServerView {
                codec: ws,
                pending: Seq::empty(),
                max_message: max_msg_len,
                max_control: max_aux_len,
            }),
    {
        Self { ws, in_data: Vec::new(), max_msg_len, max_aux_len }
    }

    /// Sends one frame of an application message and marks a flush
    /// boundary behind it. `eom` is set on the only or the last frame of a
    /// message.
    ///
    /// Succeeds exactly where the output pipe is not at end-of-stream and
    /// the codec encodes; else nothing is queued and the error is
    /// `ConnectionNotOpen`. The input pipe is not touched.
    pub fn send(
        &mut self,
        pb: &mut pipebuf::PBufRdWr<'_, u8>,
        msg: embedded_websocket::WebSocketSendMessageType,
        eom: bool,
        data: &[u8],
    ) -> (r: Result<(), ServerError>)
        requires
            send_ready(wr_view(old(pb).wr), data@.len()),
        ensures
            send_done(
                old(self)@,
                final(self)@,
                wr_view(old(pb).wr),
                wr_view(final(pb).wr),
                msg,
                eom,
                data@,
                true,
                r,
            ),
            r is Ok <==> !wr_view(old(pb).wr).state.is_eof() && can_write(
                codec_state(old(self)@.codec),
            ),
            r is Ok ==> codec_state(final(self)@.codec) == state_after_write(
                codec_state(old(self)@.codec),
                msg,
            ),
            r is Ok ==> wr_view(final(pb).wr).ends_with(data@),
            final(pb).rd == old(pb).rd,
    {
        if frame_out(&mut self.ws, &mut pb.wr, msg, eom, data) {
            wr_push(&mut pb.wr);
            Ok(())
        } else {
            Err(ServerError::ConnectionNotOpen)
        }
    }

    /// As `send`, but with any payload and on any output pipe: `None`,
    /// with nothing done, where the room for the frame cannot be reserved.
    pub fn checked_send(
        &mut self,
        pb: &mut pipebuf::PBufRdWr<'_, u8>,
        msg: embedded_websocket::WebSocketSendMessageType,
        eom: bool,
        data: &[u8],
    ) -> (r: Option<Result<(), ServerError>>)
        ensures
            r is Some <==> send_ready(wr_view(old(pb).wr), data@.len()),
            r matches Some(done) ==> send_done(
                old(self)@,
                final(self)@,
                wr_view(old(pb).wr),
                wr_view(final(pb).wr),
                msg,
                eom,
                data@,
                true,
                done,
            ),
            r matches Some(Ok(_)) ==> wr_view(final(pb).wr).ends_with(data@),
            r is None ==> final(self)@ == old(self)@ && wr_view(final(pb).wr) == wr_view(
                old(pb).wr,
            ),
            final(pb).rd == old(pb).rd,
    {
        if data.len() > (isize::MAX as usize) - FRAME_OVERHEAD {
            return None;
        }
        if !has_room(&pb.wr, data.len() + FRAME_OVERHEAD) {
            return None;
        }
        Some(self.send(pb, msg, eom, data))
    }

    /// Sends a whole text message in one frame.
    pub fn send_text(&mut self, pb: &mut pipebuf::PBufRdWr<'_, u8>, data: &str) -> (r: Result<
        (),
        ServerError,
    >)
        requires
            send_ready(wr_view(old(pb).wr), vstd::utf8::encode_utf8(data@).len()),
        ensures
            send_done(
                old(self)@,
                final(self)@,
                wr_view(old(pb).wr),
                wr_view(final(pb).wr),
                embedded_websocket::WebSocketSendMessageType::Text,
                true,
                vstd::utf8::encode_utf8(data@),
                true,
                r,
            ),
            r is Ok <==> !wr_view(old(pb).wr).state.is_eof() && can_write(
                codec_state(old(self)@.codec),
            ),
            r is Ok ==> wr_view(final(pb).wr).ends_with(vstd::utf8::encode_utf8(data@)),
            final(pb).rd == old(pb).rd,
    {
        self.send(pb, embedded_websocket::WebSocketSendMessageType::Text, true, data.as_bytes())
    }

    /// Sends a whole binary message in one frame.
    pub fn send_binary(&mut self, pb: &mut pipebuf::PBufRdWr<'_, u8>, data: &[u8]) -> (r: Result<
        (),
        ServerError,
    >)
        requires
            send_ready(wr_view(old(pb).wr), data@.len()),
        ensures
            send_done(
                old(self)@,
                final(self)@,
                wr_view(old(pb).wr),
                wr_view(final(pb).wr),
                embedded_websocket::WebSocketSendMessageType::Binary,
                true,
                data@,
                true,
                r,
            ),
            r is Ok <==> !wr_view(old(pb).wr).state.is_eof() && can_write(
                codec_state(old(self)@.codec),
            ),
            r is Ok ==> wr_view(final(pb).wr).ends_with(data@),
            final(pb).rd == old(pb).rd,
    {
        self.send(pb, embedded_websocket::WebSocketSendMessageType::Binary, true, data)
    }

    /// Answers the control frame whose payload is complete: one frame of
    /// type `msg` that carries that payload. No flush boundary is marked.
    fn send_reply(
        &mut self,
        wr: &mut pipebuf::PBufWr<'_, u8>,
        msg: embedded_websocket::WebSocketSendMessageType,
    ) -> (r: Result<(), ServerError>)
        requires
            send_ready(wr_view(*old(wr)), old(self)@.pending.len()),
        ensures
            send_done(
                old(self)@,
                final(self)@,
                wr_view(*old(wr)),
                wr_view(*final(wr)),
                msg,
                true,
                old(self)@.pending,
                false,
                r,
            ),
            wr_view(*final(wr)).data.len() <= wr_view(*old(wr)).data.len() + old(
                self,
            )@.pending.len() + FRAME_OVERHEAD,
    {
        if frame_out(&mut self.ws, wr, msg, true, self.in_data.as_slice()) {
            Ok(())
        } else {
            Err(ServerError::ConnectionNotOpen)
        }
    }

    /// Takes a piece of a text or binary message that the codec has left
    /// in the space reserved in the message buffer: its first `produced`
    /// bytes. `text` tells a text frame from a binary one, `end_of_message`
    /// marks the last piece of the message.
    ///
    /// The piece is committed to the buffer and `is_text` is set. More
    /// unread bytes than the limit fail with `MessageTooLarge`; the last
    /// piece closes the buffer. The connection itself is unchanged.
    pub fn on_data_frame(
        &mut self,
        message: &mut pipebuf::PBufWr<'_, u8>,
        is_text: &mut bool,
        text: bool,
        end_of_message: bool,
        produced: usize,
    ) -> (flow: Flow)
        requires
            !wr_view(*old(message)).state.is_eof(),
            produced <= wr_reserved(*old(message)).len(),
        ensures
            ({
                let stepped = data_step(
                    wr_view(*old(message)),
                    old(self)@.max_message,
                    end_of_message,
                    wr_reserved(*old(message)).take(produced as int),
                );
                &&& wr_view(*final(message)) == stepped.message
                &&& flow == stepped.flow
            }),
            *final(is_text) == text,
            final(self)@ == old(self)@,
    {
        *is_text = text;
        wr_commit(message, produced);
        if wr_exceeds_limit(message, self.max_msg_len) {
            return Flow::Fail(ServerError::MessageTooLarge);
        }
        if end_of_message {
            wr_close(message);
            return Flow::MessageComplete;
        }
        Flow::Continue
    }

    /// Takes a piece of a ping, a pong or a close that asks for a reply:
    /// `bytes` is what the codec produced of its payload, `end_of_message`
    /// marks the last piece.
    ///
    /// The piece joins the control payload. A payload over the limit fails
    /// with `ControlPayloadTooLarge`. With the last piece a ping is
    /// answered by one pong that carries the payload, a close by one close
    /// reply that carries it and the closing of the output pipe, a pong by
    /// nothing; then the payload is dropped. A reply that cannot be sent
    /// fails with `ConnectionNotOpen`.
    pub fn on_control_frame(
        &mut self,
        wr: &mut pipebuf::PBufWr<'_, u8>,
        kind: embedded_websocket::WebSocketReceiveMessageType,
        end_of_message: bool,
        bytes: &[u8],
    ) -> (flow: Flow)
        requires
            is_control(kind),
            wr_view(*old(wr)).has_room(old(self)@.pending.len() + bytes@.len() + FRAME_OVERHEAD),
        ensures
            ({
                let stepped = control_step(
                    old(self)@,
                    wr_view(*old(wr)),
                    kind,
                    end_of_message,
                    bytes@,
                );
                &&& final(self)@ == stepped.server
                &&& wr_view(*final(wr)) == stepped.output
                &&& flow == stepped.flow
            }),
            wr_view(*final(wr)).limit == wr_view(*old(wr)).limit,
            wr_view(*final(wr)).data.len() + final(self)@.pending.len() <= wr_view(
                *old(wr),
            ).data.len() + old(self)@.pending.len() + bytes@.len() + FRAME_OVERHEAD,
    {
        self.in_data.extend_from_slice(bytes);
        assert(self.in_data@ == old(self).in_data@ + bytes@);
        if self.in_data.len() > self.max_aux_len || self.in_data.len() > (isize::MAX as usize)
            - FRAME_OVERHEAD {
            return Flow::Fail(ServerError::ControlPayloadTooLarge);
        }
        if end_of_message {
            match kind {
                embedded_websocket::WebSocketReceiveMessageType::CloseMustReply => {
                    match self.send_reply(
                        wr,
                        embedded_websocket::WebSocketSendMessageType::CloseReply,
                    ) {
                        Ok(()) => {},
                        Err(e) => {
                            return Flow::Fail(e);
                        },
                    }
                    wr_close(wr);
                },
                embedded_websocket::WebSocketReceiveMessageType::Ping => {
                    match self.send_reply(wr, embedded_websocket::WebSocketSendMessageType::Pong) {
                        Ok(()) => {},
                        Err(e) => {
                            return Flow::Fail(e);
                        },
                    }
                },
                _ => {},
            }
            self.in_data.clear();
        }
        Flow::Continue
    }

    /// Takes frames from the input pipe while there are any. Message data
    /// goes to `message`, piece by piece as it arrives, with `is_text` set
    /// to its kind; pings and closes are answered on the output pipe. After
    /// the last piece of a message the buffer is closed and the call ends,
    /// so that the caller can take the message and reset the buffer before
    /// it calls again.
    ///
    /// Returns `Ok(true)` where a frame was taken, `Ok(false)` where none
    /// could be, and the error that failed the connection. The whole of it
    /// is the function `run` of the model.
    ///
    /// The message buffer must be open, and a pipe of fixed capacity needs
    /// room: see `receive_ready`.
    pub fn receive(
        &mut self,
        pb: &mut pipebuf::PBufRdWr<'_, u8>,
        message: &mut pipebuf::PBufWr<'_, u8>,
        is_text: &mut bool,
    ) -> (r: Result<bool, ServerError>)
        requires
            receive_ready(session_of(old(self)@, *old(pb), *old(message), *old(is_text))),
        ensures
            run(session_of(old(self)@, *old(pb), *old(message), *old(is_text)), false) == (Outcome {
                last: session_of(final(self)@, *final(pb), *final(message), *final(is_text)),
                result: r,
            }),
    {
        let ghost start = session_of(self@, *pb, *message, *is_text);
        let mut activity = false;
        loop
            invariant
                start == session_of(old(self)@, *old(pb), *old(message), *old(is_text)),
                receive_ready(session_of(self@, *pb, *message, *is_text)),
                run(start, false) == run(session_of(self@, *pb, *message, *is_text), activity),
            decreases rd_data(pb.rd).len(),
        {
            let from = rd_bytes(&pb.rd);
            if from.len() == 0 {
                return Ok(activity);
            }
            // Room for all that is there: no step produces more than it reads.
            let room = wr_space(message, from.len());
            let frame = match codec_read(&mut self.ws, from, room) {
                Ok(frame) => frame,
                Err(embedded_websocket::Error::ReadFrameIncomplete) => {
                    return Ok(activity);
                },
                Err(e) => {
                    return Err(ServerError::DecodeError(e));
                },
            };
            if frame.len_from == 0 {
                // A step that takes no input would take none the next time.
                return Ok(activity);
            }
            let flow = match frame.message_type {
                embedded_websocket::WebSocketReceiveMessageType::Text => {
                    rd_consume(&mut pb.rd, frame.len_from);
                    self.on_data_frame(message, is_text, true, frame.end_of_message, frame.len_to)
                },
                embedded_websocket::WebSocketReceiveMessageType::Binary => {
                    rd_consume(&mut pb.rd, frame.len_from);
                    self.on_data_frame(message, is_text, false, frame.end_of_message, frame.len_to)
                },
                embedded_websocket::WebSocketReceiveMessageType::CloseCompleted => {
                    rd_consume(&mut pb.rd, frame.len_from);
                    wr_close(&mut pb.wr);
                    Flow::Continue
                },
                kind => {
                    // A control frame may come in pieces, between the pieces
                    // of a message: its payload is gathered apart.
                    let bytes = slice_subrange(room, 0, frame.len_to);
                    rd_consume(&mut pb.rd, frame.len_from);
                    self.on_control_frame(&mut pb.wr, kind, frame.end_of_message, bytes)
                },
            };
            activity = true;
            match flow {
                Flow::Continue => {},
                Flow::MessageComplete => {
                    return Ok(true);
                },
                Flow::Fail(e) => {
                    return Err(e);
                },
            }
        }
    }

    /// As `receive`, but with any pipes: `None`, with nothing done, where
    /// the message buffer is closed or a pipe of fixed capacity lacks the
    /// room that `receive` asks for.
    pub fn checked_receive(
        &mut self,
        pb: &mut pipebuf::PBufRdWr<'_, u8>,
        message: &mut pipebuf::PBufWr<'_, u8>,
        is_text: &mut bool,
    ) -> (r: Option<Result<bool, ServerError>>)
        ensures
            r is Some <==> receive_ready(
                session_of(old(self)@, *old(pb), *old(message), *old(is_text)),
            ),
            r matches Some(result) ==> run(
                session_of(old(self)@, *old(pb), *old(message), *old(is_text)),
                false,
            ) == (Outcome {
                last: session_of(final(self)@, *final(pb), *final(message), *final(is_text)),
                result,
            }),
            r is None ==> session_of(final(self)@, *final(pb), *final(message), *final(is_text))
                == session_of(old(self)@, *old(pb), *old(message), *old(is_text)),
    {
        if wr_is_eof(message) {
            return None;
        }
        let input = rd_bytes(&pb.rd).len();
        if !has_room(message, input) {
            return None;
        }
        let holds = match wr_free_space(&pb.wr) {
            None => true,
            Some(free) => holds_replies(free, self.in_data.len(), input),
        };
        if !holds {
            return None;
        }
        Some(self.receive(pb, message, is_text))
    }
}

} // verus!
