//! The line-classification engine, verified against the grammar in
//! [`crate::grammar`].

use vstd::prelude::*;

use crate::grammar::{
    classify_line, delimiter_field, extracted_content, extracted_fields, field_abs, fields_abs,
    find_char_from, free_text, full_text, has_marker, invalid_comments_abs, invalid_records,
    is_space_char, is_word_char, keyword_matches_at, lemma_fields_abs_push,
    lemma_find_char_from_bounds, lemma_invalid_comments_abs_push, lemma_valid_comments_abs_push,
    lemma_ws_end_bounds, marker_keyword, marker_match_at, match_start, match_start_from, meta_span,
    meta_span_valid, outcome_abs, outcome_blame_free, trim_ws_end, valid_comments_abs,
    valid_records, ws_end,
};
use crate::line_analyzer_types::{
    CommentMarker, Delimiter, DelimiterContent, InvalidContent, InvalidTodoComment,
    TodoCommentResult, ValidContent, ValidTodoComment,
};

verus! {

/// A successful run of the marker recognizer over one line: the full matched
/// text, the metadata span between the keyword and the colon, and the free
/// text after the colon.
#[derive(Debug, PartialEq)]
pub struct MarkerMatch {
    pub full_text: String,
    pub marker_content: String,
    pub comment_content: String,
}

/// The line-classification engine.  It is immutable once built and holds no
/// per-line state, so the same analyzer may classify any number of lines.
pub struct LineAnalyzer {
    marker: CommentMarker,
}

// ===== Executable character classes =====

fn space_char(c: char) -> (r: bool)
    ensures
        r == is_space_char(c),
{
    c == ' ' || c == '\t' || c == '\n' || c == '\r' || c == '\u{b}' || c == '\u{c}'
}

fn word_char(c: char) -> (r: bool)
    ensures
        r == is_word_char(c),
{
    let u = c as u32;
    (('a' as u32) <= u && u <= ('z' as u32)) || (('A' as u32) <= u && u <= ('Z' as u32)) || (('0'
        as u32) <= u && u <= ('9' as u32)) || c == '_'
}

// ===== Executable scanning primitives =====

/// First non-whitespace index at or after `i`.
fn skip_ws(line: &str, n: usize, i: usize) -> (j: usize)
    requires
        n == line@.len(),
        i <= n,
    ensures
        j == ws_end(line@, i as int),
        i <= j <= n,
{
    let mut j: usize = i;
    while j < n
        invariant
            i <= j <= n,
            n == line@.len(),
            ws_end(line@, i as int) == ws_end(line@, j as int),
        ensures
            i <= j <= n,
            ws_end(line@, i as int) == ws_end(line@, j as int),
            j == n || !is_space_char(line@[j as int]),
        decreases n - j,
    {
        let c = line.get_char(j);
        if !space_char(c) {
            break;
        }
        proof {
            assert(ws_end(line@, j as int) == ws_end(line@, j + 1 as int));
        }
        j += 1;
    }
    j
}

/// First index at or after `i` holding `c`.
fn find_char(line: &str, n: usize, i: usize, c: char) -> (p: usize)
    requires
        n == line@.len(),
        i <= n,
    ensures
        p == find_char_from(line@, i as int, c),
        i <= p <= n,
{
    let mut p: usize = i;
    while p < n
        invariant
            i <= p <= n,
            n == line@.len(),
            find_char_from(line@, i as int, c) == find_char_from(line@, p as int, c),
        ensures
            i <= p <= n,
            find_char_from(line@, i as int, c) == find_char_from(line@, p as int, c),
            p == n || line@[p as int] == c,
        decreases n - p,
    {
        if line.get_char(p) == c {
            break;
        }
        proof {
            assert(find_char_from(line@, p as int, c) == find_char_from(line@, p + 1 as int, c));
        }
        p += 1;
    }
    p
}

/// End of `line[a..b]` once trailing whitespace is stripped.
fn trim_trailing_ws(line: &str, a: usize, b: usize) -> (r: usize)
    requires
        b <= line@.len(),
        a <= b,
    ensures
        r == trim_ws_end(line@, a as int, b as int),
        a <= r <= b,
{
    let mut r: usize = b;
    while r > a
        invariant
            a <= r <= b,
            b <= line@.len(),
            trim_ws_end(line@, a as int, b as int) == trim_ws_end(line@, a as int, r as int),
        ensures
            a <= r <= b,
            trim_ws_end(line@, a as int, b as int) == trim_ws_end(line@, a as int, r as int),
            r == a || !is_space_char(line@[r - 1]),
        decreases r,
    {
        let c = line.get_char(r - 1);
        if !space_char(c) {
            break;
        }
        proof {
            assert(trim_ws_end(line@, a as int, r as int) == trim_ws_end(
                line@,
                a as int,
                r - 1 as int,
            ));
        }
        r -= 1;
    }
    r
}

// ===== Keyword and anchored-match checks =====

/// Length of the keyword, as a run-time value.
fn keyword_len(marker: CommentMarker) -> (l: usize)
    ensures
        l == marker_keyword(marker).len(),
{
    match marker {
        CommentMarker::Todo => {
            proof {
                reveal_strlit("todo");
            }
            4
        },
    }
}

/// Does the keyword occur in `line` starting exactly at `j`?
fn keyword_at(line: &str, n: usize, j: usize, marker: CommentMarker) -> (r: bool)
    requires
        n == line@.len(),
        j <= n,
    ensures
        r == keyword_matches_at(line@, marker_keyword(marker), j as int),
{
    match marker {
        CommentMarker::Todo => {
            proof {
                reveal_strlit("todo");
            }
            if n - j < 4 {
                false
            } else {
                let r = line.get_char(j) == 't' && line.get_char(j + 1) == 'o' && line.get_char(
                    j + 2,
                ) == 'd' && line.get_char(j + 3) == 'o';
                proof {
                    let s = line@;
                    let kw = marker_keyword(marker);
                    let ji = j as int;
                    if r {
                        assert(s.subrange(ji, ji + 4) =~= kw);
                    } else {
                        if keyword_matches_at(s, kw, ji) {
                            assert(s[ji] == s.subrange(ji, ji + 4)[0]);
                            assert(s[ji + 1] == s.subrange(ji, ji + 4)[1]);
                            assert(s[ji + 2] == s.subrange(ji, ji + 4)[2]);
                            assert(s[ji + 3] == s.subrange(ji, ji + 4)[3]);
                        }
                    }
                }
                r
            }
        },
    }
}

/// Does the whole marker pattern match when anchored at `i`?
fn match_at(line: &str, n: usize, i: usize, marker: CommentMarker) -> (r: bool)
    requires
        n == line@.len(),
        i < n,
    ensures
        r == marker_match_at(line@, marker_keyword(marker), i as int),
{
    if n - i < 2 {
        return false;
    }
    if !(line.get_char(i) == '/' && line.get_char(i + 1) == '/') {
        return false;
    }
    let j = skip_ws(line, n, i + 2);
    if !keyword_at(line, n, j, marker) {
        return false;
    }
    let ke = j + keyword_len(marker);
    let p = find_char(line, n, ke, ':');
    p < n
}

impl LineAnalyzer {
    /// The marker this analyzer was built for.
    pub closed spec fn spec_marker(&self) -> CommentMarker {
        self.marker
    }

    pub fn new() -> (r: Self)
        ensures
            r.spec_marker() is Todo,
    {
        LineAnalyzer { marker: CommentMarker::Todo }
    }

    /// The marker recognizer.  Returns the leftmost match of the marker
    /// pattern in `line`, split into its three spans, or `None` when the
    /// line does not contain the convention (in particular, when the keyword
    /// is never followed by a colon).
    pub fn recognize(&self, line: &str) -> (r: Option<MarkerMatch>)
        ensures
            r is Some <==> has_marker(line@, marker_keyword(self.spec_marker())),
            r matches Some(m) ==> {
                let s = line@;
                let kw = marker_keyword(self.spec_marker());
                &&& m.full_text@ == full_text(s, kw)
                &&& m.marker_content@ == meta_span(s, kw)
                &&& m.comment_content@ == free_text(s, kw)
            },
    {
        let n = line.unicode_len();
        let mut i: usize = 0;
        while i < n
            invariant
                i <= n,
                n == line@.len(),
                match_start(line@, marker_keyword(self.spec_marker())) == match_start_from(
                    line@,
                    marker_keyword(self.spec_marker()),
                    i as int,
                ),
            ensures
                i <= n,
                n == line@.len(),
                match_start(line@, marker_keyword(self.spec_marker())) == i as int,
                i < n ==> marker_match_at(line@, marker_keyword(self.spec_marker()), i as int),
            decreases n - i,
        {
            if match_at(line, n, i, self.marker) {
                proof {
                    assert(match_start_from(line@, marker_keyword(self.spec_marker()), i as int)
                        == i as int);
                }
                break;
            }
            proof {
                assert(match_start_from(line@, marker_keyword(self.spec_marker()), i as int)
                    == match_start_from(line@, marker_keyword(self.spec_marker()), i + 1 as int));
            }
            i += 1;
        }
        if i == n {
            return None;
        }
        let ghost s = line@;
        let ghost kw = marker_keyword(self.spec_marker());
        let j = skip_ws(line, n, i + 2);
        let ke = j + keyword_len(self.marker);
        let a = skip_ws(line, n, ke);
        let p = find_char(line, n, ke, ':');
        proof {
            lemma_ws_end_bounds(s, ke as int);
            lemma_find_char_from_bounds(s, ke as int, ':');
            if p < a {
                assert(is_space_char(s[p as int]));
                assert(s[p as int] == ':');
            }
        }
        let b = trim_trailing_ws(line, a, p);
        let q = skip_ws(line, n, p + 1);
        let meta = line.substring_char(a, b);
        let comment = line.substring_char(q, n);
        let full = line.substring_char(i, n);
        Some(
            MarkerMatch {
                full_text: full.to_owned(),
                marker_content: meta.to_owned(),
                comment_content: comment.to_owned(),
            },
        )
    }

    /// The metadata validator: decides whether the contents of a marker
    /// (what stands between the keyword and the colon) are well formed.
    pub fn validate(marker_content: &str) -> (r: bool)
        ensures
            r == meta_span_valid(marker_content@),
    {
        let ghost m = marker_content@;
        let n = marker_content.unicode_len();
        if n < 2 {
            return true;
        }
        let c0 = marker_content.get_char(0);
        let cl = marker_content.get_char(n - 1);
        let bracketed = (c0 == '(' && cl == ')') || (c0 == '{' && cl == '}') || (c0 == '[' && cl
            == ']') || (c0 == '<' && cl == '>');
        if !bracketed {
            return true;
        }
        if n == 2 {
            return false;
        }
        let mut k: usize = 1;
        while k < n - 1
            invariant
                1 <= k <= n - 1,
                2 < n == m.len(),
                m == marker_content@,
                forall|t: int| 1 <= t < k ==> is_word_char(#[trigger] m[t]),
            ensures
                1 <= k <= n - 1,
                forall|t: int| 1 <= t < k ==> is_word_char(#[trigger] m[t]),
                k < n - 1 ==> !is_word_char(m[k as int]),
            decreases n - k,
        {
            if !word_char(marker_content.get_char(k)) {
                break;
            }
            k += 1;
        }
        let ghost inner = m.subrange(1, m.len() - 1);
        if k < n - 1 {
            proof {
                assert(inner[k - 1] == m[k as int]);
            }
            false
        } else {
            proof {
                assert forall|t: int| 0 <= t < inner.len() implies is_word_char(
                    #[trigger] inner[t],
                ) by {
                    assert(inner[t] == m[t + 1]);
                }
            }
            true
        }
    }

    /// Extracts the field of one bracket kind, if present, and appends it.
    fn push_field(delimiters: &mut Vec<DelimiterContent>, delimiter: Delimiter, marker_content: &str)
        ensures
            fields_abs(final(delimiters)@) == fields_abs(old(delimiters)@) + delimiter_field(
                marker_content@,
                delimiter,
            ),
    {
        if let Some(content) = Self::extract_delimiter_content(&delimiter, marker_content) {
            let ghost prev = delimiters@;
            let dc = DelimiterContent { delimiter_type: delimiter, content };
            delimiters.push(dc);
            proof {
                lemma_fields_abs_push(prev, dc);
                assert(fields_abs(prev).push(field_abs(dc)) =~= fields_abs(prev)
                    + delimiter_field(marker_content@, delimiter));
            }
        } else {
            proof {
                assert(fields_abs(delimiters@) + delimiter_field(marker_content@, delimiter)
                    =~= fields_abs(delimiters@));
            }
        }
    }

    /// The top-level per-line step: recognize the marker, validate its
    /// metadata, and produce the classification record.  `line_number` is
    /// 0-based; the record carries it 1-based.
    pub fn process(&self, line: &str, line_number: usize) -> (r: Option<TodoCommentResult>)
        requires
            line_number < usize::MAX,
        ensures
            outcome_abs(r) == classify_line(
                line@,
                marker_keyword(self.spec_marker()),
                line_number + 1,
            ),
            outcome_blame_free(r),
    {
        let ghost s = line@;
        let ghost kw = marker_keyword(self.spec_marker());
        let m = match self.recognize(line) {
            Some(m) => m,
            None => {
                return None;
            },
        };
        let line_number = line_number + 1;  // for human readable purposes
        if Self::validate(m.marker_content.as_str()) {
            let ghost meta = meta_span(s, kw);
            let mut delimiters: Vec<DelimiterContent> = Vec::new();
            Self::push_field(&mut delimiters, Delimiter::Parentheses, m.marker_content.as_str());
            Self::push_field(&mut delimiters, Delimiter::Braces, m.marker_content.as_str());
            Self::push_field(&mut delimiters, Delimiter::Brackets, m.marker_content.as_str());
            Self::push_field(&mut delimiters, Delimiter::Angles, m.marker_content.as_str());
            proof {
                assert(fields_abs(delimiters@) =~= extracted_fields(meta));
            }
            Some(
                TodoCommentResult::Valid(
                    ValidTodoComment {
                        line: line_number,
                        line_info: ValidContent { comment: m.comment_content, delimiters },
                        blame_info: None,
                    },
                ),
            )
        } else {
            Some(
                TodoCommentResult::Invalid(
                    InvalidTodoComment {
                        line: line_number,
                        line_info: InvalidContent { full_text: m.full_text },
                        blame_info: None,
                    },
                ),
            )
        }
    }

    /// The per-file step: classify every line of a file, collecting the
    /// valid and the invalid records in order of appearance.  Line numbers
    /// in the records are 1-based positions in `lines`.
    pub fn classify_lines(&self, lines: &Vec<String>) -> (r: (
        Vec<ValidTodoComment>,
        Vec<InvalidTodoComment>,
    ))
        ensures
            valid_comments_abs(r.0@) == valid_records(
                lines.deep_view(),
                marker_keyword(self.spec_marker()),
            ),
            invalid_comments_abs(r.1@) == invalid_records(
                lines.deep_view(),
                marker_keyword(self.spec_marker()),
            ),
            forall|t: int| 0 <= t < r.0@.len() ==> (#[trigger] r.0@[t]).blame_info is None,
            forall|t: int| 0 <= t < r.1@.len() ==> (#[trigger] r.1@[t]).blame_info is None,
    {
        let ghost lv = lines.deep_view();
        let ghost kw = marker_keyword(self.spec_marker());
        let mut valids: Vec<ValidTodoComment> = Vec::new();
        let mut invalids: Vec<InvalidTodoComment> = Vec::new();
        let n = lines.len();
        let mut l: usize = 0;
        while l < n
            invariant
                l <= n,
                n == lines.len(),
                lv == lines.deep_view(),
                kw == marker_keyword(self.spec_marker()),
                valid_comments_abs(valids@) == valid_records(lv.take(l as int), kw),
                invalid_comments_abs(invalids@) == invalid_records(lv.take(l as int), kw),
                forall|t: int| 0 <= t < valids@.len() ==> (#[trigger] valids@[t]).blame_info
                    is None,
                forall|t: int| 0 <= t < invalids@.len() ==> (#[trigger] invalids@[t]).blame_info
                    is None,
            decreases n - l,
        {
            let res = self.process(lines[l].as_str(), l);
            proof {
                assert(lv[l as int] == lines[l as int]@);
                assert(lv.take(l + 1 as int).drop_last() =~= lv.take(l as int));
                assert(lv.take(l + 1 as int).last() == lv[l as int]);
            }
            match res {
                Some(TodoCommentResult::Valid(v)) => {
                    proof {
                        lemma_valid_comments_abs_push(valids@, v);
                    }
                    valids.push(v);
                },
                Some(TodoCommentResult::Invalid(v)) => {
                    proof {
                        lemma_invalid_comments_abs_push(invalids@, v);
                    }
                    invalids.push(v);
                },
                None => {},
            }
            l += 1;
        }
        proof {
            assert(lv.take(n as int) =~= lv);
        }
        (valids, invalids)
    }

    /// The extractor for one bracket kind: the content between the first
    /// opening character and the next closing character after it, or `None`
    /// when `line` holds no such pair.
    pub fn extract_delimiter_content(delimiter: &Delimiter, line: &str) -> (r: Option<String>)
        ensures
            match r {
                Some(c) => extracted_content(line@, *delimiter) == Some(c@),
                None => extracted_content(line@, *delimiter) is None,
            },
    {
        let chars = delimiter.get_chars();
        let (open_delim, close_delim) = chars.to_tuple();
        let n = line.unicode_len();
        let u = find_char(line, n, 0, open_delim);
        if u < n {
            let v = find_char(line, n, u + 1, close_delim);
            if v < n {
                let content = line.substring_char(u + 1, v);
                Some(content.to_owned())
            } else {
                None
            }
        } else {
            None
        }
    }
}

} // verus!
