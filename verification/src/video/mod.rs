//! Sources of video.
pub mod video_source_custom_pipeline;
