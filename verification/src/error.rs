//! The errors of this library.

use vstd::prelude::*;

verus! {

/// Why a call on a connection failed. Every one of these is fatal to the
/// connection but `InvalidHandshake`, after which the same input may still
/// be tried as another protocol.
#[derive(Debug, PartialEq, Eq)]
pub enum ServerError {
    /// The request is malformed HTTP, or lacks what a WebSocket upgrade
    /// needs. No input was consumed.
    InvalidHandshake,
    /// The frame codec refused the input; its own error is inside.
    DecodeError(embedded_websocket::Error),
    /// More unread message bytes than the connection's limit allows.
    MessageTooLarge,
    /// More control-frame payload than the connection's limit allows.
    ControlPayloadTooLarge,
    /// A frame was to be sent on a closed pipe or through a closed codec.
    ConnectionNotOpen,
}

} // verus!
