//! A source-to-source binding generator built around a verified template
//! engine: authored templates are compiled into literal runs and variable
//! splice points, preserving the original inter-token spacing exactly, and
//! rendered against a per-declaration binding context.

pub mod compile;
pub mod dispatch;
pub mod errors;
pub mod laws;
pub mod registry;
pub mod render;
pub mod sample;
pub mod span;
pub mod token;
