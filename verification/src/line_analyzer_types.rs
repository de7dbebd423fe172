//! Data types produced and consumed by the line analyzer.

use vstd::prelude::*;

use crate::grammar::{delimiter_close_char, delimiter_name, delimiter_open_char};

verus! {

/// Outcome of classifying one line that contains the marker convention:
/// either the metadata validated (fields were extracted) or it did not
/// (the originally matched text is kept verbatim).
#[derive(Debug, PartialEq)]
pub enum TodoCommentResult {
    Valid(ValidTodoComment),
    Invalid(InvalidTodoComment),
}

pub type ValidTodoComment = TodoCommentBase<ValidContent>;

pub type InvalidTodoComment = TodoCommentBase<InvalidContent>;

/// A classified marker comment: a 1-based line number, the variant-specific
/// content, and optional revision-history provenance.
#[derive(Debug, PartialEq)]
pub struct TodoCommentBase<T> {
    pub line: usize,
    pub line_info: T,
    pub blame_info: Option<BlameInfo>,
}

/// Content of a well-formed marker comment: its free text and the fields
/// extracted from the metadata span, in the fixed kind order.
#[derive(Debug, PartialEq)]
pub struct ValidContent {
    pub comment: String,
    pub delimiters: Vec<DelimiterContent>,
}

/// Content of a malformed marker comment: the full matched text, exactly as
/// it was written.
#[derive(Debug, PartialEq)]
pub struct InvalidContent {
    pub full_text: String,
}

/// One extracted metadata field: which bracket kind it came from and the
/// text strictly between the opening and closing characters.
#[derive(Debug, PartialEq)]
pub struct DelimiterContent {
    pub delimiter_type: Delimiter,
    pub content: String,
}

/// Revision-history provenance for a line: the author's email address and
/// the commit timestamp in seconds since the Unix epoch.
#[derive(Debug, Clone, PartialEq)]
pub struct BlameInfo {
    pub email: String,
    pub timestamp: i64,
}

/// The comment keyword the analyzer recognizes.
#[derive(Debug, Clone, Copy)]
pub enum CommentMarker {
    Todo,
}

/// Names for the two spans a marker match produces: the metadata span
/// between the keyword and the colon, and the free text after the colon.
#[derive(Debug, Clone, Copy)]
pub enum CaptureGroupNames {
    MarkerContent,
    CommentContent,
}

/// The opening and closing characters of one bracket kind.
#[derive(Debug, Clone, Copy, PartialEq, Eq, Structural)]
pub struct DelimiterChars {
    pub opening: char,
    pub closing: char,
}

/// The four bracket kinds a metadata span may contain, in the fixed order in
/// which they are validated and extracted.
#[derive(Debug, Clone, Copy, PartialEq, Eq, Structural)]
pub enum Delimiter {
    Parentheses,
    Braces,
    Brackets,
    Angles,
}

impl DelimiterChars {
    /// For quick destructuring.
    pub fn to_tuple(&self) -> (r: (char, char))
        ensures
            r == (self.opening, self.closing),
    {
        (self.opening, self.closing)
    }
}

impl Delimiter {
    pub fn get_chars(&self) -> (r: DelimiterChars)
        ensures
            r.opening == delimiter_open_char(*self),
            r.closing == delimiter_close_char(*self),
    {
        match self {
            Delimiter::Parentheses => DelimiterChars { opening: '(', closing: ')' },
            Delimiter::Braces => DelimiterChars { opening: '{', closing: '}' },
            Delimiter::Brackets => DelimiterChars { opening: '[', closing: ']' },
            Delimiter::Angles => DelimiterChars { opening: '<', closing: '>' },
        }
    }

    pub fn get_name(&self) -> (r: &'static str)
        ensures
            r@ == delimiter_name(*self),
    {
        match self {
            Delimiter::Parentheses => "parentheses",
            Delimiter::Braces => "braces",
            Delimiter::Brackets => "brackets",
            Delimiter::Angles => "angles",
        }
    }
}

impl BlameInfo {
    /// Provenance as plain values: the author's email address and the
    /// commit time in seconds since the Unix epoch.  Callers that read a
    /// revision history obtain both there and convert at the boundary.
    pub fn new(email: String, timestamp: i64) -> (r: BlameInfo)
        ensures
            r.email == email,
            r.timestamp == timestamp,
    {
        BlameInfo { email, timestamp }
    }
}

impl CommentMarker {
    /// The keyword as it must appear in a line, in its exact casing.
    pub fn get_name(&self) -> (r: &'static str)
        ensures
            r@ == crate::grammar::marker_keyword(*self),
    {
        match self {
            CommentMarker::Todo => "todo",
        }
    }
}

impl CaptureGroupNames {
    pub fn get_name(&self) -> (r: &'static str)
        ensures
            *self is MarkerContent ==> r@ == "MarkerContent"@,
            *self is CommentContent ==> r@ == "CommentContent"@,
    {
        match self {
            CaptureGroupNames::MarkerContent => "MarkerContent",
            CaptureGroupNames::CommentContent => "CommentContent",
        }
    }
}

} // verus!
