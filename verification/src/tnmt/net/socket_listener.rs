use vstd::prelude::*;

verus! {

pub struct SocketListenerBuilder {}

impl SocketListenerBuilder {
    pub fn new() -> Self {
        Self {}
    }

    pub fn build(self) -> SocketListener {
        SocketListener {}
    }
}

/// A TCP echo server on 0.0.0.0:8080.
pub struct SocketListener {}

impl SocketListener {
    pub fn builder() -> SocketListenerBuilder {
        SocketListenerBuilder::new()
    }
}

/// Whether the echo connection goes on after a read of `nbytes` bytes: a read
/// of nothing means the peer closed the connection.
pub fn keeps_echoing(nbytes: usize) -> (r: bool)
    ensures
        r == (nbytes != 0),
{
    0 != nbytes
}

} // verus!
