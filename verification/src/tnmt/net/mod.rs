pub mod socket_listener;
pub mod websocket_listener;

pub use socket_listener::{SocketListener, SocketListenerBuilder};
pub use websocket_listener::{EchoAction, EchoEvent, WebSocketListener, WebSocketListenerBuilder};
