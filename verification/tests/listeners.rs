use base::net::{
    Data, FrameKind, ListenAddress, SessionAction, SessionEvent, WebSocketListener,
};
use base::net::websocket_listener::{receive_step, session_step};
use base::error::ErrorCode;
use std::sync::Arc;
use base::tnmt::net::socket_listener::keeps_echoing;
use base::tnmt::net::websocket_listener::echo_step;
use base::tnmt::net::{EchoAction, EchoEvent, SocketListener, SocketListenerBuilder};

#[test]
fn websocket_listener_defaults() {
    let l = WebSocketListener::builder().build();
    assert_eq!(l.keepalive_millis(), 5000);
    assert_eq!(l.address(), ListenAddress { octets: [0, 0, 0, 0], port: 8000 });
    assert!(l.demux().inbound(std::sync::Arc::new(base::buf::MemoryStream::new())).is_ok());
}

#[test]
fn data_frames_are_delivered() {
    assert!(matches!(session_step(SessionEvent::SocketFrame(FrameKind::Binary)), SessionAction::Deliver));
    assert!(matches!(session_step(SessionEvent::SocketFrame(FrameKind::Text)), SessionAction::Deliver));
}

#[test]
fn other_frames_and_errors_disconnect() {
    assert!(matches!(session_step(SessionEvent::SocketFrame(FrameKind::Other)), SessionAction::Disconnect));
    assert!(matches!(session_step(SessionEvent::SocketError), SessionAction::Disconnect));
    assert!(matches!(session_step(SessionEvent::PeerClosed), SessionAction::Disconnect));
    assert!(matches!(session_step(SessionEvent::PeerData(Data::Close)), SessionAction::Disconnect));
}

#[test]
fn peer_messages_are_sent_on() {
    match session_step(SessionEvent::PeerData(Data::Binary(vec![1, 2]))) {
        SessionAction::SendBinary(b) => assert_eq!(b, vec![1, 2]),
        _ => panic!("binary data must be sent"),
    }
    match session_step(SessionEvent::PeerData(Data::Text(String::from("hi")))) {
        SessionAction::SendText(t) => assert_eq!(t, "hi"),
        _ => panic!("text data must be sent"),
    }
}

#[test]
fn keepalive_tick_waits() {
    assert!(matches!(session_step(SessionEvent::KeepaliveTick), SessionAction::Wait));
}

#[test]
fn echo_decisions() {
    assert!(matches!(echo_step(EchoEvent::Text), EchoAction::Echo));
    assert!(matches!(echo_step(EchoEvent::Binary), EchoAction::Echo));
    assert!(matches!(echo_step(EchoEvent::Close), EchoAction::Stop));
    assert!(matches!(echo_step(EchoEvent::End), EchoAction::Stop));
    assert!(matches!(echo_step(EchoEvent::Other), EchoAction::Skip));
}

#[test]
fn socket_echo_stops_on_empty_read() {
    assert!(!keeps_echoing(0));
    assert!(keeps_echoing(1));
    assert!(keeps_echoing(1024));
}

#[test]
fn builders_build() {
    let _l: SocketListener = SocketListener::builder().build();
    let _m: SocketListener = SocketListenerBuilder::new().build();
    let _w: base::tnmt::net::WebSocketListener = base::tnmt::net::WebSocketListener::builder().build();
}

#[test]
fn receiving_goes_on_only_after_a_decode_succeeds() {
    let ok: Result<Arc<base::buf::MemoryStream>, ErrorCode> = Ok(Arc::new(base::buf::MemoryStream::new()));
    assert!(receive_step(&ok));
    let err: Result<Arc<base::buf::MemoryStream>, ErrorCode> = Err(ErrorCode::MalformedStream);
    assert!(!receive_step(&err));
}
