//! The classic candidate window.
pub mod laws;
pub mod logic;
pub mod paint;
pub mod window;
