//! The marker grammar, stated as specification functions over `Seq<char>`.
//!
//! A line contains a marker when, somewhere in it, a `//` comment opener is
//! followed by optional whitespace, the keyword in its exact casing, optional
//! whitespace, a shortest-possible metadata span, optional whitespace, and a
//! colon; the rest of the line (leading whitespace stripped) is the free
//! text.  The metadata span is valid when it either is exactly one bracketed
//! group whose content is non-empty and made of word characters, or does not
//! form a bracketed group at all.  Extraction finds, for each bracket kind,
//! the content between the first opening character and the next closing
//! character after it.

use vstd::prelude::*;

use crate::line_analyzer_types::{
    CommentMarker, Delimiter, DelimiterContent, InvalidTodoComment, TodoCommentResult,
    ValidTodoComment,
};

verus! {

// ===== Character classes =====

/// Whitespace, as tolerated around the keyword, the metadata span and the
/// colon: the ASCII space, tab, and line-break characters.
pub open spec fn is_space_char(c: char) -> bool {
    c == ' ' || c == '\t' || c == '\n' || c == '\r' || c == '\u{b}' || c == '\u{c}'
}

/// Word characters: ASCII letters, digits and underscore.  This is the one
/// character class admitted inside a bracketed metadata group; hyphens are
/// rejected like any other punctuation.
pub open spec fn is_word_char(c: char) -> bool {
    ('a' as u32) <= (c as u32) && (c as u32) <= ('z' as u32)
        || ('A' as u32) <= (c as u32) && (c as u32) <= ('Z' as u32)
        || ('0' as u32) <= (c as u32) && (c as u32) <= ('9' as u32)
        || c == '_'
}

// ===== Scanning primitives =====

/// The first index at or after `i` holding a non-whitespace character, or
/// `s.len()` if there is none.
pub open spec fn ws_end(s: Seq<char>, i: int) -> int
    decreases s.len() - i
        when 0 <= i <= s.len()
{
    if i < s.len() && is_space_char(s[i]) {
        ws_end(s, i + 1)
    } else {
        i
    }
}

/// The first index at or after `i` holding `c`, or `s.len()` if there is
/// none.
pub open spec fn find_char_from(s: Seq<char>, i: int, c: char) -> int
    decreases s.len() - i
        when 0 <= i <= s.len()
{
    if i < s.len() {
        if s[i] == c {
            i
        } else {
            find_char_from(s, i + 1, c)
        }
    } else {
        i
    }
}

/// The end of `s[a..b]` once trailing whitespace is stripped: the least
/// index `r` with `a <= r <= b` such that `s[r..b]` is all whitespace and
/// `s[r-1]`, if it exists in `s[a..b]`, is not.
pub open spec fn trim_ws_end(s: Seq<char>, a: int, b: int) -> int
    decreases b - a
        when a <= b
{
    if b > a && is_space_char(s[b - 1]) {
        trim_ws_end(s, a, b - 1)
    } else {
        b
    }
}

pub proof fn lemma_ws_end_bounds(s: Seq<char>, i: int)
    requires
        0 <= i <= s.len(),
    ensures
        i <= ws_end(s, i) <= s.len(),
        forall|k: int| i <= k < ws_end(s, i) ==> is_space_char(#[trigger] s[k]),
        ws_end(s, i) < s.len() ==> !is_space_char(s[ws_end(s, i)]),
    decreases s.len() - i,
{
    if i < s.len() && is_space_char(s[i]) {
        lemma_ws_end_bounds(s, i + 1);
    }
}

pub proof fn lemma_find_char_from_bounds(s: Seq<char>, i: int, c: char)
    requires
        0 <= i <= s.len(),
    ensures
        i <= find_char_from(s, i, c) <= s.len(),
        find_char_from(s, i, c) < s.len() ==> s[find_char_from(s, i, c)] == c,
        forall|k: int| i <= k < find_char_from(s, i, c) ==> #[trigger] s[k] != c,
    decreases s.len() - i,
{
    if i < s.len() && s[i] != c {
        lemma_find_char_from_bounds(s, i + 1, c);
    }
}

pub proof fn lemma_find_char_from_at(s: Seq<char>, i: int, c: char, v: int)
    requires
        0 <= i <= v < s.len(),
        s[v] == c,
        forall|k: int| i <= k < v ==> #[trigger] s[k] != c,
    ensures
        find_char_from(s, i, c) == v,
    decreases v - i,
{
    if i < v {
        lemma_find_char_from_at(s, i + 1, c, v);
    }
}

pub proof fn lemma_find_char_from_none(s: Seq<char>, i: int, c: char)
    requires
        0 <= i <= s.len(),
        forall|k: int| i <= k < s.len() ==> #[trigger] s[k] != c,
    ensures
        find_char_from(s, i, c) == s.len(),
    decreases s.len() - i,
{
    if i < s.len() {
        lemma_find_char_from_none(s, i + 1, c);
    }
}

// ===== Marker recognition =====

/// The keyword of a marker, in the exact casing a line must contain.
pub open spec fn marker_keyword(m: CommentMarker) -> Seq<char> {
    match m {
        CommentMarker::Todo => "todo"@,
    }
}

/// `kw` occurs in `s` starting exactly at index `j`.
pub open spec fn keyword_matches_at(s: Seq<char>, kw: Seq<char>, j: int) -> bool {
    &&& 0 <= j
    &&& j + kw.len() <= s.len()
    &&& s.subrange(j, j + kw.len() as int) == kw
}

/// The whole marker pattern matches when anchored at index `i`: a `//`
/// opener, optional whitespace, the keyword, and a colon somewhere after it.
pub open spec fn marker_match_at(s: Seq<char>, kw: Seq<char>, i: int) -> bool {
    &&& 0 <= i
    &&& i + 2 <= s.len()
    &&& s[i] == '/'
    &&& s[i + 1] == '/'
    &&& keyword_matches_at(s, kw, ws_end(s, i + 2))
    &&& find_char_from(s, ws_end(s, i + 2) + kw.len(), ':') < s.len()
}

/// The least index at or after `i` where the marker pattern matches, or
/// `s.len()` if it matches nowhere.
pub open spec fn match_start_from(s: Seq<char>, kw: Seq<char>, i: int) -> int
    decreases s.len() - i
        when 0 <= i <= s.len()
{
    if i >= s.len() {
        i
    } else if marker_match_at(s, kw, i) {
        i
    } else {
        match_start_from(s, kw, i + 1)
    }
}

/// The leftmost match position of the marker pattern in `s`, or `s.len()`.
pub open spec fn match_start(s: Seq<char>, kw: Seq<char>) -> int {
    match_start_from(s, kw, 0)
}

/// The line contains the marker convention.
pub open spec fn has_marker(s: Seq<char>, kw: Seq<char>) -> bool {
    match_start(s, kw) < s.len()
}

// ===== Positions of the spans of a match =====

/// Index where the keyword starts, once a match exists.
pub open spec fn keyword_start(s: Seq<char>, kw: Seq<char>) -> int {
    ws_end(s, match_start(s, kw) + 2)
}

/// Index just past the keyword.
pub open spec fn keyword_end(s: Seq<char>, kw: Seq<char>) -> int {
    keyword_start(s, kw) + kw.len()
}

/// Index of the separating colon: the first colon after the keyword.
pub open spec fn colon_pos(s: Seq<char>, kw: Seq<char>) -> int {
    find_char_from(s, keyword_end(s, kw), ':')
}

/// Start of the metadata span: first non-whitespace index after the keyword.
pub open spec fn meta_start(s: Seq<char>, kw: Seq<char>) -> int {
    ws_end(s, keyword_end(s, kw))
}

/// End of the metadata span: the colon position, with whitespace before the
/// colon stripped.
pub open spec fn meta_end(s: Seq<char>, kw: Seq<char>) -> int {
    trim_ws_end(s, meta_start(s, kw), colon_pos(s, kw))
}

/// The metadata span: the text between the keyword and the colon, with
/// surrounding whitespace stripped.
pub open spec fn meta_span(s: Seq<char>, kw: Seq<char>) -> Seq<char> {
    s.subrange(meta_start(s, kw), meta_end(s, kw))
}

/// Start of the free text: first non-whitespace index after the colon.
pub open spec fn free_start(s: Seq<char>, kw: Seq<char>) -> int {
    ws_end(s, colon_pos(s, kw) + 1)
}

/// The free text: everything after the colon, leading whitespace stripped.
pub open spec fn free_text(s: Seq<char>, kw: Seq<char>) -> Seq<char> {
    s.subrange(free_start(s, kw), s.len() as int)
}

/// The full matched text: from the match position to the end of the line.
pub open spec fn full_text(s: Seq<char>, kw: Seq<char>) -> Seq<char> {
    s.subrange(match_start(s, kw), s.len() as int)
}

// ===== Metadata validity =====

pub open spec fn delimiter_open_char(d: Delimiter) -> char {
    match d {
        Delimiter::Parentheses => '(',
        Delimiter::Braces => '{',
        Delimiter::Brackets => '[',
        Delimiter::Angles => '<',
    }
}

pub open spec fn delimiter_close_char(d: Delimiter) -> char {
    match d {
        Delimiter::Parentheses => ')',
        Delimiter::Braces => '}',
        Delimiter::Brackets => ']',
        Delimiter::Angles => '>',
    }
}

pub open spec fn delimiter_name(d: Delimiter) -> Seq<char> {
    match d {
        Delimiter::Parentheses => "parentheses"@,
        Delimiter::Braces => "braces"@,
        Delimiter::Brackets => "brackets"@,
        Delimiter::Angles => "angles"@,
    }
}

/// The bracket kind whose pair encloses the whole span, if the span's first
/// and last characters form such a pair.
pub open spec fn span_bracket_kind(m: Seq<char>) -> Option<Delimiter> {
    if m.len() < 2 {
        Option::None
    } else if m[0] == '(' && m[m.len() - 1] == ')' {
        Option::Some(Delimiter::Parentheses)
    } else if m[0] == '{' && m[m.len() - 1] == '}' {
        Option::Some(Delimiter::Braces)
    } else if m[0] == '[' && m[m.len() - 1] == ']' {
        Option::Some(Delimiter::Brackets)
    } else if m[0] == '<' && m[m.len() - 1] == '>' {
        Option::Some(Delimiter::Angles)
    } else {
        Option::None
    }
}

/// Content admitted inside a bracketed group: non-empty and word-only.
pub open spec fn inner_content_ok(c: Seq<char>) -> bool {
    c.len() > 0 && forall|k: int| 0 <= k < c.len() ==> is_word_char(#[trigger] c[k])
}

/// Validity of a metadata span.  A span that is exactly one bracketed group
/// is valid when the group's content is non-empty and word-only; any other
/// span is valid as it stands.  A span holding two groups of one kind starts
/// and ends with that kind's pair, so its nominal content spans both groups
/// and fails the word-only check: duplicates are invalid.
pub open spec fn meta_span_valid(m: Seq<char>) -> bool {
    match span_bracket_kind(m) {
        Option::Some(d) => inner_content_ok(m.subrange(1, m.len() - 1)),
        Option::None => true,
    }
}

// ===== Extraction =====

/// Content of the first group of kind `d` in `m`: the text between the
/// first opening character and the next closing character after it, or
/// `None` when no such pair exists.
pub open spec fn extracted_content(m: Seq<char>, d: Delimiter) -> Option<Seq<char>> {
    let u = find_char_from(m, 0, delimiter_open_char(d));
    if u < m.len() {
        let v = find_char_from(m, u + 1, delimiter_close_char(d));
        if v < m.len() {
            Option::Some(m.subrange(u + 1, v))
        } else {
            Option::None
        }
    } else {
        Option::None
    }
}

/// Zero or one extracted field for kind `d`.
pub open spec fn delimiter_field(m: Seq<char>, d: Delimiter) -> Seq<(Delimiter, Seq<char>)> {
    match extracted_content(m, d) {
        Option::Some(c) => seq![(d, c)],
        Option::None => seq![],
    }
}

/// All extracted fields of a metadata span, in the fixed kind order, not in
/// order of appearance.
pub open spec fn extracted_fields(m: Seq<char>) -> Seq<(Delimiter, Seq<char>)> {
    delimiter_field(m, Delimiter::Parentheses) + delimiter_field(m, Delimiter::Braces)
        + delimiter_field(m, Delimiter::Brackets) + delimiter_field(m, Delimiter::Angles)
}

// ===== Classification =====

/// The three-way classification outcome of one line, at the specification
/// level: plain values only, so that two outcomes are equal exactly when
/// they are structurally identical.
pub enum Classification {
    NotApplicable,
    Invalid { line: int, full_text: Seq<char> },
    Valid { line: int, comment: Seq<char>, fields: Seq<(Delimiter, Seq<char>)> },
}

/// The classification of line `s` under keyword `kw`, reported with the
/// 1-based line number `line`.
pub open spec fn classify_line(s: Seq<char>, kw: Seq<char>, line: int) -> Classification {
    if !has_marker(s, kw) {
        Classification::NotApplicable
    } else if meta_span_valid(meta_span(s, kw)) {
        Classification::Valid {
            line,
            comment: free_text(s, kw),
            fields: extracted_fields(meta_span(s, kw)),
        }
    } else {
        Classification::Invalid { line, full_text: full_text(s, kw) }
    }
}

// ===== Abstraction of the executable result types =====

pub open spec fn field_abs(dc: DelimiterContent) -> (Delimiter, Seq<char>) {
    (dc.delimiter_type, dc.content@)
}

pub open spec fn fields_abs(ds: Seq<DelimiterContent>) -> Seq<(Delimiter, Seq<char>)>
    decreases ds.len(),
{
    if ds.len() == 0 {
        seq![]
    } else {
        fields_abs(ds.drop_last()).push(field_abs(ds.last()))
    }
}

pub open spec fn valid_comment_abs(v: ValidTodoComment) -> Classification {
    Classification::Valid {
        line: v.line as int,
        comment: v.line_info.comment@,
        fields: fields_abs(v.line_info.delimiters@),
    }
}

pub open spec fn invalid_comment_abs(v: InvalidTodoComment) -> Classification {
    Classification::Invalid { line: v.line as int, full_text: v.line_info.full_text@ }
}

/// What an analyzer result denotes, as a `Classification`.
pub open spec fn outcome_abs(r: Option<TodoCommentResult>) -> Classification {
    match r {
        Option::None => Classification::NotApplicable,
        Option::Some(TodoCommentResult::Valid(v)) => valid_comment_abs(v),
        Option::Some(TodoCommentResult::Invalid(v)) => invalid_comment_abs(v),
    }
}

/// The result carries no provenance.
pub open spec fn outcome_blame_free(r: Option<TodoCommentResult>) -> bool {
    match r {
        Option::None => true,
        Option::Some(TodoCommentResult::Valid(v)) => v.blame_info is None,
        Option::Some(TodoCommentResult::Invalid(v)) => v.blame_info is None,
    }
}

pub open spec fn valid_comments_abs(vs: Seq<ValidTodoComment>) -> Seq<Classification>
    decreases vs.len(),
{
    if vs.len() == 0 {
        seq![]
    } else {
        valid_comments_abs(vs.drop_last()).push(valid_comment_abs(vs.last()))
    }
}

pub open spec fn invalid_comments_abs(vs: Seq<InvalidTodoComment>) -> Seq<Classification>
    decreases vs.len(),
{
    if vs.len() == 0 {
        seq![]
    } else {
        invalid_comments_abs(vs.drop_last()).push(invalid_comment_abs(vs.last()))
    }
}

pub proof fn lemma_fields_abs_push(u: Seq<DelimiterContent>, x: DelimiterContent)
    ensures
        fields_abs(u.push(x)) == fields_abs(u).push(field_abs(x)),
{
    assert(u.push(x).drop_last() =~= u);
}

pub proof fn lemma_valid_comments_abs_push(u: Seq<ValidTodoComment>, x: ValidTodoComment)
    ensures
        valid_comments_abs(u.push(x)) == valid_comments_abs(u).push(valid_comment_abs(x)),
{
    assert(u.push(x).drop_last() =~= u);
}

pub proof fn lemma_invalid_comments_abs_push(u: Seq<InvalidTodoComment>, x: InvalidTodoComment)
    ensures
        invalid_comments_abs(u.push(x)) == invalid_comments_abs(u).push(invalid_comment_abs(x)),
{
    assert(u.push(x).drop_last() =~= u);
}

// ===== Classification of a whole file =====

/// The classifications of the lines of a file that come out `Valid`, in
/// order of appearance, with 1-based line numbers.
pub open spec fn valid_records(lines: Seq<Seq<char>>, kw: Seq<char>) -> Seq<Classification>
    decreases lines.len(),
{
    if lines.len() == 0 {
        seq![]
    } else {
        let prev = valid_records(lines.drop_last(), kw);
        let c = classify_line(lines.last(), kw, lines.len() as int);
        if c is Valid {
            prev.push(c)
        } else {
            prev
        }
    }
}

/// The classifications of the lines of a file that come out `Invalid`, in
/// order of appearance, with 1-based line numbers.
pub open spec fn invalid_records(lines: Seq<Seq<char>>, kw: Seq<char>) -> Seq<Classification>
    decreases lines.len(),
{
    if lines.len() == 0 {
        seq![]
    } else {
        let prev = invalid_records(lines.drop_last(), kw);
        let c = classify_line(lines.last(), kw, lines.len() as int);
        if c is Invalid {
            prev.push(c)
        } else {
            prev
        }
    }
}

// ===== Laws =====

/// Classification is deterministic: the outcome of a line is a function of
/// the line, the keyword and the line number alone, so any two results that
/// denote the classification of the same line are structurally identical.
pub proof fn lemma_classification_deterministic(
    r1: Option<TodoCommentResult>,
    r2: Option<TodoCommentResult>,
    s: Seq<char>,
    kw: Seq<char>,
    line: int,
)
    requires
        outcome_abs(r1) == classify_line(s, kw, line),
        outcome_abs(r2) == classify_line(s, kw, line),
    ensures
        outcome_abs(r1) == outcome_abs(r2),
{
}

/// Round trip for a single delimiter: a metadata span that is exactly one
/// bracketed group of kind `d` with admissible content validates, and
/// extraction returns exactly the one field `(d, content)`.
pub proof fn lemma_single_delimiter_round_trip(d: Delimiter, content: Seq<char>)
    requires
        inner_content_ok(content),
    ensures
        ({
            let m = seq![delimiter_open_char(d)] + content + seq![delimiter_close_char(d)];
            &&& meta_span_valid(m)
            &&& extracted_fields(m) == seq![(d, content)]
        }),
{
    let m = seq![delimiter_open_char(d)] + content + seq![delimiter_close_char(d)];
    assert(m.len() == content.len() + 2);
    assert(m[0] == delimiter_open_char(d));
    assert(m[m.len() - 1] == delimiter_close_char(d));
    assert(forall|k: int| 1 <= k < m.len() - 1 ==> m[k] == content[k - 1]);
    assert(m.subrange(1, m.len() - 1) =~= content);
    assert(span_bracket_kind(m) == Some(d));
    assert(meta_span_valid(m));
    assert(find_char_from(m, 0, delimiter_open_char(d)) == 0);
    lemma_find_char_from_at(m, 1, delimiter_close_char(d), m.len() - 1);
    assert(extracted_content(m, d) == Some(content)) by {
        assert(m.subrange(1, m.len() - 1) =~= content);
    }
    assert(delimiter_field(m, d) == seq![(d, content)]);
    assert forall|d2: Delimiter| d2 != d implies extracted_content(m, d2) is None by {
        assert(forall|k: int| 0 <= k < m.len() ==> #[trigger] m[k] != delimiter_open_char(d2));
        lemma_find_char_from_none(m, 0, delimiter_open_char(d2));
    }
    assert(extracted_fields(m) =~= seq![(d, content)]);
}

} // verus!
