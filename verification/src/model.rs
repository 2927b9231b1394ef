//! The receive and send paths as mathematics: a session is the connection
//! with its three pipes, and every call is a function from session to
//! session. The executable code is proved against these functions.

use vstd::prelude::*;
use crate::codec::{accept_reply, read_step, write_step, Codec, REPLY_ROOM, TOKEN_MAX};
use crate::error::ServerError;
use crate::http::{headers_fit, http_scan, request_key, RequestView, MAX_HEADERS};
use crate::pipe::PipeView;

verus! {

/// The room that is reserved for a frame beyond its payload. The longest
/// header that the server writes has 10 bytes.
pub const FRAME_OVERHEAD: usize = 12;

/// A connection as plain values.
pub struct ServerView {
    /// The frame codec.
    pub codec: Codec,
    /// The payload of the control frame that is arriving, as far as it has
    /// arrived.
    pub pending: Seq<u8>,
    /// The most unread message bytes that the message buffer may hold.
    pub max_message: usize,
    /// The most payload that a control frame may carry.
    pub max_control: usize,
}

/// A connection together with the pipes that a call works on.
pub struct Session {
    pub server: ServerView,
    /// The unread bytes of the input pipe.
    pub input: Seq<u8>,
    /// The output pipe.
    pub output: PipeView,
    /// The message buffer.
    pub message: PipeView,
    /// Whether the message in the buffer is text.
    pub is_text: bool,
}

/// How the receive loop goes on after a frame.
#[derive(Debug, PartialEq, Eq)]
pub enum Flow {
    /// Go on with the next frame.
    Continue,
    /// A message is complete: hand the buffer to the caller.
    MessageComplete,
    /// The connection has failed.
    Fail(ServerError),
}

/// What one call of the receive loop comes to.
pub struct Outcome {
    pub last: Session,
    pub result: Result<bool, ServerError>,
}

/// What sending one frame comes to.
pub struct Sent {
    pub codec: Codec,
    pub output: PipeView,
    pub ok: bool,
}

/// The message buffer after a piece of a message, and how to go on.
pub struct DataStepped {
    pub message: PipeView,
    pub flow: Flow,
}

/// The connection and the output pipe after a piece of a control frame, and
/// how to go on.
pub struct ControlStepped {
    pub server: ServerView,
    pub output: PipeView,
    pub flow: Flow,
}

/// A session after one frame, and how to go on.
pub struct Stepped {
    pub after: Session,
    pub flow: Flow,
}

/// The most that one call of the receive loop can queue on the output
/// pipe: every reply carries payload that was pending or came with the
/// input, and is given `FRAME_OVERHEAD` bytes beyond it, and no reply comes
/// without at least one byte of input.
pub open spec fn reply_room(pending: nat, input: nat) -> int {
    pending + (FRAME_OVERHEAD + 1) * input + FRAME_OVERHEAD
}

/// The receive loop can run on this session: the message buffer is open,
/// and where a pipe has a fixed capacity, the message buffer has room for
/// as many bytes as the input holds, and the output pipe for the replies.
pub open spec fn receive_ready(s: Session) -> bool {
    &&& !s.message.state.is_eof()
    &&& s.message.has_room(s.input.len() as int)
    &&& s.output.has_room(reply_room(s.server.pending.len(), s.input.len()))
}

/// A frame with a payload of `len` bytes can be sent on this pipe: the
/// room for it can be reserved.
pub open spec fn send_ready(output: PipeView, len: nat) -> bool {
    &&& len + FRAME_OVERHEAD <= isize::MAX
    &&& output.has_room(len + FRAME_OVERHEAD)
}

/// The handshake can run on this output pipe with this subprotocol: the
/// subprotocol fits the codec's fixed string, the pipe is open and has room
/// for the response.
pub open spec fn handshake_ready(output: PipeView, subprotocol: Option<&str>) -> bool {
    &&& subprotocol matches Some(text) ==> text.len() <= TOKEN_MAX
    &&& !output.state.is_eof()
    &&& output.has_room(REPLY_ROOM as int)
}

/// A control payload of `len` bytes is over the limit `max`, or longer than
/// any reply could carry.
pub open spec fn control_too_large(len: nat, max: usize) -> bool {
    len > max || len + FRAME_OVERHEAD > isize::MAX
}

/// The frame is a ping, a pong, or a close that asks for a reply.
pub open spec fn is_control(kind: embedded_websocket::WebSocketReceiveMessageType) -> bool {
    kind is Ping || kind is Pong || kind is CloseMustReply
}

/// Sends one frame of `kind` with `payload` on the output pipe: refused on
/// a pipe at end-of-stream and where the codec refuses; else the frame that
/// the codec wrote joins the pipe, followed by a flush mark where `push` is
/// set.
pub open spec fn transmit(
    codec: Codec,
    output: PipeView,
    kind: embedded_websocket::WebSocketSendMessageType,
    end_of_message: bool,
    payload: Seq<u8>,
    push: bool,
) -> Sent {
    if output.state.is_eof() {
        Sent { codec, output, ok: false }
    } else {
        let step = write_step(
            codec,
            kind,
            end_of_message,
            payload,
            (payload.len() + FRAME_OVERHEAD) as nat,
        );
        if step.result is Ok {
            let written = output.appended(step.frame);
            Sent {
                codec: step.next,
                output: if push {
                    written.with_state(written.state.pushed())
                } else {
                    written
                },
                ok: true,
            }
        } else {
            Sent { codec: step.next, output, ok: false }
        }
    }
}

/// A piece of a text or binary message: it joins the message buffer; more
/// unread bytes than `limit` fail the connection; the last piece closes the
/// buffer.
pub open spec fn data_step(
    message: PipeView,
    limit: usize,
    end_of_message: bool,
    bytes: Seq<u8>,
) -> DataStepped {
    let taken = message.appended(bytes);
    if taken.data.len() > limit {
        DataStepped { message: taken, flow: Flow::Fail(ServerError::MessageTooLarge) }
    } else if end_of_message {
        DataStepped {
            message: taken.with_state(taken.state.closed()),
            flow: Flow::MessageComplete,
        }
    } else {
        DataStepped { message: taken, flow: Flow::Continue }
    }
}

/// The connection with the control payload dropped.
pub open spec fn settled(server: ServerView) -> ServerView {
    ServerView { pending: Seq::empty(), ..server }
}

/// Answers the control frame whose payload is complete with one frame of
/// `kind` that carries that payload, and closes the output pipe behind it
/// where `close` is set. The payload is dropped once the frame is out.
pub open spec fn reply_step(
    server: ServerView,
    output: PipeView,
    kind: embedded_websocket::WebSocketSendMessageType,
    close: bool,
) -> ControlStepped {
    let sent = transmit(server.codec, output, kind, true, server.pending, false);
    let replied = ServerView { codec: sent.codec, ..server };
    if !sent.ok {
        ControlStepped {
            server: replied,
            output: sent.output,
            flow: Flow::Fail(ServerError::ConnectionNotOpen),
        }
    } else {
        ControlStepped {
            server: settled(replied),
            output: if close {
                sent.output.with_state(sent.output.state.closed())
            } else {
                sent.output
            },
            flow: Flow::Continue,
        }
    }
}

/// A piece of a ping, a pong or a close that asks for a reply: it joins the
/// control payload; a payload over the limit fails the connection; with the
/// last piece a ping is answered by a pong, a close by a close reply and
/// the closing of the output pipe, a pong by nothing, and the payload is
/// dropped.
pub open spec fn control_step(
    server: ServerView,
    output: PipeView,
    kind: embedded_websocket::WebSocketReceiveMessageType,
    end_of_message: bool,
    bytes: Seq<u8>,
) -> ControlStepped {
    let taken = ServerView { pending: server.pending + bytes, ..server };
    if control_too_large(taken.pending.len(), server.max_control) {
        ControlStepped {
            server: taken,
            output,
            flow: Flow::Fail(ServerError::ControlPayloadTooLarge),
        }
    } else if !end_of_message {
        ControlStepped { server: taken, output, flow: Flow::Continue }
    } else if kind is CloseMustReply {
        reply_step(taken, output, embedded_websocket::WebSocketSendMessageType::CloseReply, true)
    } else if kind is Ping {
        reply_step(taken, output, embedded_websocket::WebSocketSendMessageType::Pong, false)
    } else {
        ControlStepped { server: settled(taken), output, flow: Flow::Continue }
    }
}

/// One decoded frame: its bytes leave the input, and it goes the way of its
/// type. A text or binary frame goes to the message buffer alone, a control
/// frame to the control payload and the output pipe alone; a close that
/// completes our own closes the output pipe and touches nothing else.
pub open spec fn frame_step(
    s: Session,
    frame: embedded_websocket::WebSocketReadResult,
    bytes: Seq<u8>,
) -> Stepped {
    let fed = Session { input: s.input.skip(frame.len_from as int), ..s };
    match frame.message_type {
        embedded_websocket::WebSocketReceiveMessageType::Text
        | embedded_websocket::WebSocketReceiveMessageType::Binary => {
            let stepped = data_step(s.message, s.server.max_message, frame.end_of_message, bytes);
            Stepped {
                after: Session {
                    message: stepped.message,
                    is_text: frame.message_type is Text,
                    ..fed
                },
                flow: stepped.flow,
            }
        },
        embedded_websocket::WebSocketReceiveMessageType::CloseCompleted => Stepped {
            after: Session { output: s.output.with_state(s.output.state.closed()), ..fed },
            flow: Flow::Continue,
        },
        kind => {
            let stepped = control_step(s.server, s.output, kind, frame.end_of_message, bytes);
            Stepped {
                after: Session { server: stepped.server, output: stepped.output, ..fed },
                flow: stepped.flow,
            }
        },
    }
}

/// One call of the receive loop, from a session whose earlier frames of
/// this call gave `activity`: frames are decoded and taken one by one while
/// input is left. The call ends with `Ok` where the input is used up, where
/// the codec finds no complete frame header or takes no input, and after
/// the last piece of a message; with `Err` where the codec or a frame fails
/// the connection.
pub open spec fn run(s: Session, activity: bool) -> Outcome
    decreases s.input.len(),
{
    if s.input.len() == 0 {
        Outcome { last: s, result: Ok(activity) }
    } else {
        let step = read_step(s.server.codec, s.input, s.input.len());
        let read = Session { server: ServerView { codec: step.next, ..s.server }, ..s };
        match step.result {
            Err(embedded_websocket::Error::ReadFrameIncomplete) => Outcome {
                last: read,
                result: Ok(activity),
            },
            Err(e) => Outcome { last: read, result: Err(ServerError::DecodeError(e)) },
            Ok(frame) => if 0 < frame.len_from <= s.input.len() {
                let stepped = frame_step(read, frame, step.bytes);
                match stepped.flow {
                    Flow::Continue => run(stepped.after, true),
                    Flow::MessageComplete => Outcome { last: stepped.after, result: Ok(true) },
                    Flow::Fail(e) => Outcome { last: stepped.after, result: Err(e) },
                }
            } else {
                Outcome { last: read, result: Ok(activity) }
            },
        }
    }
}

/// The payload pieces of the text and binary frames that one call of the
/// receive loop takes, joined in the order in which the codec hands them
/// out.
pub open spec fn delivered(s: Session) -> Seq<u8>
    decreases s.input.len(),
{
    if s.input.len() == 0 {
        Seq::empty()
    } else {
        let step = read_step(s.server.codec, s.input, s.input.len());
        let read = Session { server: ServerView { codec: step.next, ..s.server }, ..s };
        match step.result {
            Ok(frame) => if 0 < frame.len_from <= s.input.len() {
                let stepped = frame_step(read, frame, step.bytes);
                let piece = if frame.message_type is Text || frame.message_type is Binary {
                    step.bytes
                } else {
                    Seq::empty()
                };
                if stepped.flow is Continue {
                    piece + delivered(stepped.after)
                } else {
                    piece
                }
            } else {
                Seq::empty()
            },
            Err(_) => Seq::empty(),
        }
    }
}

/// A handshake that succeeded: the bytes of the request and the response.
pub struct Upgrade {
    pub consumed: nat,
    pub reply: Seq<u8>,
}

/// What a complete request comes to: an upgrade where its header lines fit
/// the header reader, carry a WebSocket upgrade with a key, and the codec
/// builds a response; else it is no valid handshake.
pub open spec fn upgrade_of(request: RequestView, subprotocol: Option<Seq<char>>) -> Option<
    Upgrade,
> {
    if !headers_fit(request.headers) {
        None
    } else {
        match request_key(request.headers) {
            Ok(Some(key)) => match accept_reply(key, subprotocol) {
                Some(reply) => Some(Upgrade { consumed: request.len, reply }),
                None => None,
            },
            _ => None,
        }
    }
}

/// What the bytes at the head of the input come to: `Ok(None)` while the
/// request is incomplete, the upgrade for a valid request, and
/// `InvalidHandshake` for anything else.
pub open spec fn handshake(input: Seq<u8>, subprotocol: Option<Seq<char>>) -> Result<
    Option<Upgrade>,
    ServerError,
> {
    match http_scan(input, MAX_HEADERS as nat) {
        Err(_) => Err(ServerError::InvalidHandshake),
        Ok(None) => Ok(None),
        Ok(Some(request)) => match upgrade_of(request, subprotocol) {
            Some(upgrade) => Ok(Some(upgrade)),
            None => Err(ServerError::InvalidHandshake),
        },
    }
}

} // verus!
