//! Scanner for `// todo:` comment markers.
//!
//! The crate classifies single lines of text: a line either does not contain
//! the marker convention at all, contains it with well-formed metadata (which
//! is extracted into tagged fields), or contains it with malformed metadata.
//! The grammar of the marker and of its metadata is stated as spec functions
//! in [`grammar`], and every classification function is verified against it.

pub mod grammar;
pub mod line_analyzer;
pub mod line_analyzer_types;
pub mod path_analyzer_types;
