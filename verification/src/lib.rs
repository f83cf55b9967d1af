//! Client side of an HTTP CONNECT tunnel: building the handshake request,
//! accumulating and classifying the proxy's response while keeping any
//! bytes that arrive past the header block, and the per-direction relay
//! state machine that copies bytes once the tunnel is up.

pub mod handshake;
pub mod relay;
pub mod request;
