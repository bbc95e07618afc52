//! Read-only inspector for sealed-archive byte buffers: header validation,
//! trailing-directory discovery and decoding, blob extraction, and
//! best-effort interpretation of recognizable blob kinds.

pub mod analyzer;
pub mod classify;
pub mod directory;
pub mod extract;
pub mod header;
pub mod json;
pub mod locator;
pub mod parse;
pub mod terms;
