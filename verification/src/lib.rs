//! Leveled-logging formatting engine: an ordered severity level type, a
//! terminal-color decision policy, prefix and width/alignment formatting,
//! and an annotated hex dump renderer for byte buffers.

pub mod color;
pub mod config;
pub mod hex;
pub mod level;
pub mod record;
pub mod textfmt;
