//! Streams: their configuration, their pipelines and their sinks.
pub mod debug_env;
pub mod element;
pub mod endpoint;
pub mod instrumentation;
pub mod manager;
pub mod peer_id;
pub mod pipeline;
pub mod pipeline_controls;
pub mod sink;
pub mod stream_state;
pub mod teardown;
pub mod transcoding_types;
pub mod types;
pub mod validation;
pub mod video_stream_custom_pipeline;
pub mod watcher;
pub mod webrtc;
