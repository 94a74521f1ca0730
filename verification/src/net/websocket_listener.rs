use std::sync::Arc;

use vstd::prelude::*;

use super::codec::{Codec, Processor};
use crate::buf::MemoryStream;
use crate::error::ErrorCode;
use super::Data;

verus! {

/// An IPv4 address and port to listen on.
#[derive(Clone, Copy, PartialEq, Eq, Debug)]
pub struct ListenAddress {
    pub octets: [u8; 4],
    pub port: u16,
}

/// What every connection of a listener shares.
struct Context {
    keepalive_millis: u64,
    address: ListenAddress,
    demux: Processor,
}

#[derive(Default)]
pub struct WebSocketListenerBuilder {}

pub struct WebSocketListener {
    context: Arc<Context>,
}

impl WebSocketListenerBuilder {
    fn new() -> Self {
        Self {}
    }

    /// A listener on 0.0.0.0:8000 with a keepalive period of 5000 ms and an
    /// empty codec chain.
    pub fn build(self) -> (l: WebSocketListener)
        ensures
            l.spec_keepalive_millis() == 5000,
            l.spec_address() == (ListenAddress { octets: [0u8, 0u8, 0u8, 0u8], port: 8000 }),
            l.spec_demux().codecs() == Seq::<Box<dyn Codec>>::empty(),
    {
        WebSocketListener {
            context: Arc::new(
                Context {
                    keepalive_millis: 5000,
                    address: ListenAddress { octets: [0u8, 0u8, 0u8, 0u8], port: 8000 },
                    demux: Processor::new(),
                },
            ),
        }
    }
}

impl WebSocketListener {
    pub closed spec fn spec_keepalive_millis(&self) -> u64 {
        self.context.keepalive_millis
    }

    pub closed spec fn spec_address(&self) -> ListenAddress {
        self.context.address
    }

    pub closed spec fn spec_demux(&self) -> Processor {
        self.context.demux
    }

    pub fn builder() -> WebSocketListenerBuilder {
        WebSocketListenerBuilder::new()
    }

    /// The keepalive period, in milliseconds.
    pub fn keepalive_millis(&self) -> (r: u64)
        ensures
            r == self.spec_keepalive_millis(),
    {
        self.context.keepalive_millis
    }

    /// The address to listen on.
    pub fn address(&self) -> (r: ListenAddress)
        ensures
            r == self.spec_address(),
    {
        self.context.address
    }

    /// The codec chain that inbound data goes through.
    pub fn demux(&self) -> (r: &Processor)
        ensures
            *r == self.spec_demux(),
    {
        &self.context.demux
    }
}

/// Whether receiving goes on after the codec chain decoded the buffer: it
/// runs again after a success, and stops (the buffer being cleared) after an
/// error.
pub fn receive_step(decoded: &Result<Arc<MemoryStream>, ErrorCode>) -> (go_on: bool)
    ensures
        go_on == (decoded is Ok),
{
    decoded.is_ok()
}

/// The kind of a frame read from the socket.
pub enum FrameKind {
    Binary,
    Text,
    Other,
}

/// What a connection waits for: a frame or an error from the socket, a
/// message from the peer handle, the end of the peer handle, or the
/// keepalive period.
pub enum SessionEvent {
    SocketFrame(FrameKind),
    SocketError,
    PeerData(Data),
    PeerClosed,
    KeepaliveTick,
}

/// What the connection does next.
pub enum SessionAction {
    /// Hands the received frame to the buffer and the codec chain.
    Deliver,
    SendBinary(Vec<u8>),
    SendText(String),
    Disconnect,
    Wait,
}

/// The decision of a connection on one event: data frames are delivered,
/// any other frame or a socket error ends the connection, peer messages are
/// sent on, a close request or the end of the peer handle ends the
/// connection, and the keepalive period does nothing.
pub fn session_step(event: SessionEvent) -> (action: SessionAction)
    ensures
        match event {
            SessionEvent::SocketFrame(FrameKind::Binary) => action is Deliver,
            SessionEvent::SocketFrame(FrameKind::Text) => action is Deliver,
            SessionEvent::SocketFrame(FrameKind::Other) => action is Disconnect,
            SessionEvent::SocketError => action is Disconnect,
            SessionEvent::PeerData(Data::Binary(b)) => action == SessionAction::SendBinary(b),
            SessionEvent::PeerData(Data::Text(t)) => action == SessionAction::SendText(t),
            SessionEvent::PeerData(Data::Close) => action is Disconnect,
            SessionEvent::PeerClosed => action is Disconnect,
            SessionEvent::KeepaliveTick => action is Wait,
        },
{
    match event {
        SessionEvent::SocketFrame(kind) => match kind {
            FrameKind::Binary => SessionAction::Deliver,
            FrameKind::Text => SessionAction::Deliver,
            FrameKind::Other => SessionAction::Disconnect,
        },
        SessionEvent::SocketError => SessionAction::Disconnect,
        SessionEvent::PeerData(data) => match data {
            Data::Binary(b) => SessionAction::SendBinary(b),
            Data::Text(t) => SessionAction::SendText(t),
            Data::Close => SessionAction::Disconnect,
        },
        SessionEvent::PeerClosed => SessionAction::Disconnect,
        SessionEvent::KeepaliveTick => SessionAction::Wait,
    }
}

} // verus!
