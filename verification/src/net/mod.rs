use vstd::prelude::*;

pub mod codec;
pub mod websocket_listener;

pub use codec::{Codec, HexDump, Processor};
pub use websocket_listener::{
    FrameKind, ListenAddress, SessionAction, SessionEvent, WebSocketListener,
    WebSocketListenerBuilder,
};

verus! {

/// A message a peer hands to its connection for sending, or the request to close it.
pub enum Data {
    Binary(Vec<u8>),
    Text(String),
    Close,
}

} // verus!
