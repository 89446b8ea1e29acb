//! WebRTC: session descriptions and signalling.
pub mod sdp;
pub mod signaller;
pub mod signalling_protocol;
pub mod signalling_server;
