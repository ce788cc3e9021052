//! Renders a stream of markdown events as text for a terminal.
//!
//! Structural markup is flattened into plain text with line-break
//! conventions; the lines of code blocks are syntax-highlighted with ANSI
//! 24-bit colour escapes.
pub mod event;
pub mod line;
pub mod model;
pub mod paint;
pub mod renderer;
