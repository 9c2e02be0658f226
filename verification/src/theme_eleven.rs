//! The candidate strip of newer systems.
pub mod config;
pub mod laws;
pub mod window;
