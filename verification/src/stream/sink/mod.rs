//! Sinks: what a stream's pipeline feeds.
pub mod branch;
pub mod udp_multi_client;
pub mod udp_sink;
pub mod unlinking;
pub mod webrtc_sink;
pub mod zenoh_sink;
