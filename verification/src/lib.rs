//! An interactive pseudo-SQL shell.
//!
//! The shell reads one line at a time, classifies it by its leading keyword
//! (case-insensitively), and emits a fixed response block for each category.
//! `text` holds the string primitives (trimming, case-insensitive matching),
//! `responder` the keyword classifier and its canned responses, and `shell`
//! the decision step of the read-classify-print loop.

pub mod responder;
pub mod shell;
pub mod text;
