//! A manager of video streams for vehicles: what it decides, verified.
pub mod helper;
pub mod mavlink;
pub mod stream;
pub mod text;
pub mod video;
pub mod zenoh;
