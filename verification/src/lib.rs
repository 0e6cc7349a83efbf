//! Formatting decisions for an interactive shell prompt: picking the visual
//! style of a prompt segment from an ordered rule list evaluated against the
//! process environment, and shortening a filesystem path for display while
//! keeping it recognizable.

pub mod conditional_style;
pub mod context;
pub mod starship_path;
