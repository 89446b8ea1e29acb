//! What is told to MAVLink ground stations.
pub mod mavlink_camera;
