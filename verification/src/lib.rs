//! A line-oriented log pretty-printer: JSON log records are recognised among
//! the input lines, their fields (level, message, timestamp, provider) are
//! extracted, and each line is re-emitted as a colourised, human-readable
//! line. Lines that match no recognised record shape pass through unchanged.

pub mod ansi;
pub mod json;
pub mod kail;
pub mod laws;
pub mod parse;
pub mod render;
pub mod strutil;
pub mod utils;
