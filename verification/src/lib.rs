//! Streaming edit core for an AI coding-agent backend.
//!
//! The library turns an incrementally arriving text stream into precisely
//! located edits on an in-memory line buffer. A streaming parser consumes
//! raw text deltas, recognizes SEARCH/REPLACE blocks, locates each search
//! section inside the buffer, splices the replacement in, and emits a
//! sequence of edit events that an orchestration layer forwards to a UI
//! sink.

pub mod errors;
pub mod gotodefinition;
pub mod identifier;
pub mod important;
pub mod orchestration;
pub mod search_and_replace;
pub mod text_document;
pub mod text_lines;
pub mod ui_event;

pub use text_document::{Position, Range};
