//! Structured log-line formatter: parses one JSON log line into a typed
//! record, reformats its timestamp, and renders a fixed-field, optionally
//! color-highlighted output line. Non-JSON lines pass through unchanged.

pub mod args;
pub mod palette;
pub mod record;
pub mod render;
pub mod strutil;

