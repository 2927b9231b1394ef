//! A WebSocket server endpoint over pipe buffers.
//!
//! The endpoint reads the opening handshake from a byte pipe, answers it,
//! and from then on turns the frames that arrive into messages in a buffer
//! of the caller, answers pings and closes, and frames what the caller
//! sends. Frames are encoded and decoded by `embedded_websocket`, requests
//! scanned by `httparse`, and the pipes are those of `pipebuf`. What this
//! library adds is the bookkeeping between them, and that is what is
//! proved here: `model` says what each call does, `server` does it.

pub mod codec;
pub mod error;
pub mod http;
pub mod laws;
pub mod model;
pub mod pipe;
pub mod server;

pub use codec::Codec;
pub use error::ServerError;
pub use model::Flow;
pub use server::WebsocketServer;
