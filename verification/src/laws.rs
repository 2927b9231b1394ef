//! What holds of the endpoint whatever the peer sends, proved from the
//! model.

use vstd::prelude::*;
use crate::codec::{can_write, codec_state, read_step, write_step, write_step_sound};
use crate::error::ServerError;
use crate::http::{http_scan, RequestView, MAX_HEADERS};
use crate::model::{
    control_step, control_too_large, data_step, delivered, frame_step, handshake, is_control, run,
    Flow, ServerView, Session, FRAME_OVERHEAD,
};
use crate::pipe::PipeView;

verus! {

/// One call of the receive loop adds to the message buffer the payload
/// pieces of the text and binary frames that it takes, in the codec's
/// order, and nothing else: however the codec cuts a message into pieces,
/// no byte of it is lost, doubled or moved, and no byte of a control frame
/// comes between. The buffer's capacity is not touched.
pub proof fn message_is_the_data_pieces_in_order(s: Session, activity: bool)
    ensures
        run(s, activity).last.message.data == s.message.data + delivered(s),
        run(s, activity).last.message.limit == s.message.limit,
    decreases s.input.len(),
{
    if s.input.len() != 0 {
        let step = read_step(s.server.codec, s.input, s.input.len());
        let read = Session { server: ServerView { codec: step.next, ..s.server }, ..s };
        match step.result {
            Ok(frame) => {
                if 0 < frame.len_from <= s.input.len() {
                    let stepped = frame_step(read, frame, step.bytes);
                    if stepped.flow is Continue {
                        message_is_the_data_pieces_in_order(stepped.after, true);
                    }
                }
            },
            Err(_) => {},
        }
    }
    assert(s.message.data + Seq::<u8>::empty() == s.message.data);
}

/// It makes no difference where the codec cuts the payload of a message:
/// two pieces taken one after the other leave the message buffer as the
/// two taken as one piece would, with the same way to go on; and where the
/// first piece already fails, so does the whole.
pub proof fn pieces_of_a_message_join(
    message: PipeView,
    limit: usize,
    end_of_message: bool,
    first: Seq<u8>,
    second: Seq<u8>,
)
    ensures
        ({
            let one = data_step(message, limit, false, first);
            let whole = data_step(message, limit, end_of_message, first + second);
            if one.flow is Continue {
                data_step(one.message, limit, end_of_message, second) == whole
            } else {
                one.flow == whole.flow && whole.flow == Flow::Fail(ServerError::MessageTooLarge)
            }
        }),
{
    assert((message.data + first) + second == message.data + (first + second));
}

/// Nor does it make a difference where the codec cuts the payload of a
/// control frame: two pieces taken one after the other leave the
/// connection and the output pipe as the two taken as one piece would, so
/// that the reply carries the whole payload; and where the first piece
/// already fails, so does the whole.
pub proof fn pieces_of_a_control_frame_join(
    server: ServerView,
    output: PipeView,
    kind: embedded_websocket::WebSocketReceiveMessageType,
    end_of_message: bool,
    first: Seq<u8>,
    second: Seq<u8>,
)
    requires
        is_control(kind),
    ensures
        ({
            let one = control_step(server, output, kind, false, first);
            let whole = control_step(server, output, kind, end_of_message, first + second);
            if one.flow is Continue {
                control_step(one.server, one.output, kind, end_of_message, second) == whole
            } else {
                one.flow == whole.flow && whole.flow == Flow::Fail(
                    ServerError::ControlPayloadTooLarge,
                )
            }
        }),
{
    assert((server.pending + first) + second == server.pending + (first + second));
}

/// A piece of a message fails with `MessageTooLarge` exactly where the
/// unread bytes of the message buffer, the piece included, are more than
/// the limit. What has gone through the buffer before and was read does
/// not count: a caller that keeps the backlog within the limit can take a
/// message of any length.
pub proof fn message_too_large_is_backlog_over_limit(
    message: PipeView,
    limit: usize,
    end_of_message: bool,
    bytes: Seq<u8>,
)
    ensures
        data_step(message, limit, end_of_message, bytes).flow == Flow::Fail(
            ServerError::MessageTooLarge,
        ) <==> message.data.len() + bytes.len() > limit,
        message.data.len() + bytes.len() <= limit ==> !(data_step(
            message,
            limit,
            end_of_message,
            bytes,
        ).flow is Fail),
        data_step(message, limit, end_of_message, bytes).message.data == message.data + bytes,
{
}

/// The last piece of a ping, where the payload is within the limit, the
/// output pipe is open and the codec encodes, for a codec that keeps to
/// what its source shows: exactly one frame is queued on the output pipe,
/// the pong that the codec makes of the whole payload of the ping, and it
/// ends with that payload; the pipe stays open, the payload is dropped,
/// and the message buffer and its kind are as before.
pub proof fn ping_is_answered_by_one_pong(
    s: Session,
    frame: embedded_websocket::WebSocketReadResult,
    bytes: Seq<u8>,
)
    requires
        frame.message_type is Ping,
        frame.end_of_message,
        !control_too_large((s.server.pending + bytes).len(), s.server.max_control),
        !s.output.state.is_eof(),
        can_write(codec_state(s.server.codec)),
        write_step_sound(
            s.server.codec,
            embedded_websocket::WebSocketSendMessageType::Pong,
            true,
            s.server.pending + bytes,
            ((s.server.pending + bytes).len() + FRAME_OVERHEAD) as nat,
        ),
    ensures
        ({
            let payload = s.server.pending + bytes;
            let pong = write_step(
                s.server.codec,
                embedded_websocket::WebSocketSendMessageType::Pong,
                true,
                payload,
                (payload.len() + FRAME_OVERHEAD) as nat,
            );
            let stepped = frame_step(s, frame, bytes);
            &&& stepped.flow == Flow::Continue
            &&& stepped.after.output == s.output.appended(pong.frame)
            &&& pong.frame.len() >= payload.len()
            &&& pong.frame.skip(pong.frame.len() - payload.len()) == payload
            &&& stepped.after.server.pending == Seq::<u8>::empty()
            &&& stepped.after.message == s.message
            &&& stepped.after.is_text == s.is_text
        }),
{
}

/// The last piece of a close that asks for a reply, under the same
/// conditions: exactly one frame is queued on the output pipe, the close
/// reply that the codec makes of the payload of the close, and the pipe is
/// closed behind it. The message buffer is as before.
pub proof fn close_is_answered_and_output_closed(
    s: Session,
    frame: embedded_websocket::WebSocketReadResult,
    bytes: Seq<u8>,
)
    requires
        frame.message_type is CloseMustReply,
        frame.end_of_message,
        !control_too_large((s.server.pending + bytes).len(), s.server.max_control),
        !s.output.state.is_eof(),
        can_write(codec_state(s.server.codec)),
        write_step_sound(
            s.server.codec,
            embedded_websocket::WebSocketSendMessageType::CloseReply,
            true,
            s.server.pending + bytes,
            ((s.server.pending + bytes).len() + FRAME_OVERHEAD) as nat,
        ),
    ensures
        ({
            let payload = s.server.pending + bytes;
            let reply = write_step(
                s.server.codec,
                embedded_websocket::WebSocketSendMessageType::CloseReply,
                true,
                payload,
                (payload.len() + FRAME_OVERHEAD) as nat,
            );
            let stepped = frame_step(s, frame, bytes);
            &&& stepped.flow == Flow::Continue
            &&& stepped.after.output.data == s.output.data + reply.frame
            &&& reply.frame.len() >= payload.len()
            &&& reply.frame.skip(reply.frame.len() - payload.len()) == payload
            &&& stepped.after.output.state.is_eof()
            &&& stepped.after.server.pending == Seq::<u8>::empty()
            &&& stepped.after.message == s.message
            &&& stepped.after.is_text == s.is_text
        }),
{
}

/// A close that completes a close of our own: no frame is written, the
/// output pipe is closed, and nothing else changes but that the frame has
/// left the input.
pub proof fn completed_close_only_closes_output(
    s: Session,
    frame: embedded_websocket::WebSocketReadResult,
    bytes: Seq<u8>,
)
    requires
        frame.message_type is CloseCompleted,
    ensures
        ({
            let stepped = frame_step(s, frame, bytes);
            &&& stepped.flow == Flow::Continue
            &&& stepped.after.output.data == s.output.data
            &&& stepped.after.output.state.is_eof()
            &&& stepped.after.server == s.server
            &&& stepped.after.message == s.message
            &&& stepped.after.is_text == s.is_text
        }),
{
}

/// A control frame never reaches the message buffer, and a piece of a
/// message never reaches the control payload or the output pipe.
pub proof fn frames_go_their_own_way(
    s: Session,
    frame: embedded_websocket::WebSocketReadResult,
    bytes: Seq<u8>,
)
    ensures
        ({
            let stepped = frame_step(s, frame, bytes);
            if frame.message_type is Text || frame.message_type is Binary {
                &&& stepped.after.server == s.server
                &&& stepped.after.output == s.output
            } else {
                &&& stepped.after.message == s.message
                &&& stepped.after.is_text == s.is_text
            }
        }),
{
}

/// The handshake consumes the whole request or nothing: where it yields an
/// upgrade, what it consumes is the length that the scan found, which is
/// the upgrade's; while the request is incomplete, and where it is
/// invalid, there is no upgrade and so nothing to consume.
pub proof fn handshake_takes_the_request_or_nothing(input: Seq<u8>, subprotocol: Option<Seq<char>>)
    ensures
        match handshake(input, subprotocol) {
            Ok(Some(upgrade)) => http_scan(input, MAX_HEADERS as nat) matches Ok(Some(request))
                && upgrade.consumed == request.len,
            Ok(None) => http_scan(input, MAX_HEADERS as nat) == Ok::<
                Option<RequestView>,
                httparse::Error,
            >(None),
            Err(e) => e == ServerError::InvalidHandshake,
        },
{
}

} // verus!
