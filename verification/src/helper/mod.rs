//! Helpers for those who work on the manager.
pub mod develop;
