use vstd::prelude::*;

verus! {

pub struct WebSocketListenerBuilder {}

impl WebSocketListenerBuilder {
    fn new() -> Self {
        Self {}
    }

    pub fn build(self) -> WebSocketListener {
        WebSocketListener {}
    }
}

/// A WebSocket echo server on 0.0.0.0:8080.
pub struct WebSocketListener {}

impl WebSocketListener {
    pub fn builder() -> WebSocketListenerBuilder {
        WebSocketListenerBuilder::new()
    }
}

/// What the echo connection reads: a text, binary or close message, another
/// message, or the end of the stream.
pub enum EchoEvent {
    Text,
    Binary,
    Close,
    Other,
    End,
}

pub enum EchoAction {
    /// Sends the message back.
    Echo,
    /// Ends the connection.
    Stop,
    /// Reads on.
    Skip,
}

/// Text and binary messages are sent back, a close message or the end of the
/// stream ends the connection, and any other message is passed over.
pub fn echo_step(event: EchoEvent) -> (action: EchoAction)
    ensures
        match event {
            EchoEvent::Text | EchoEvent::Binary => action is Echo,
            EchoEvent::Close | EchoEvent::End => action is Stop,
            EchoEvent::Other => action is Skip,
        },
{
    match event {
        EchoEvent::Text => EchoAction::Echo,
        EchoEvent::Binary => EchoAction::Echo,
        EchoEvent::Close => EchoAction::Stop,
        EchoEvent::End => EchoAction::Stop,
        EchoEvent::Other => EchoAction::Skip,
    }
}

} // verus!
