//! The candidate strip that every system can show.
pub mod laws;
pub mod logic;
pub mod paint;
pub mod window;
