//! Pipelines: how they are described, run and watched.
pub mod fake_pipeline;
pub mod parts;
pub mod runner;
pub mod source;
pub mod transcoding;
pub mod v4l_pipeline;
pub mod v4l_profiles;
