use todo_scan::line_analyzer::LineAnalyzer;
use todo_scan::line_analyzer_types::{
    CaptureGroupNames, CommentMarker, Delimiter, TodoCommentResult,
};

fn expect_valid(line: &str) -> todo_scan::line_analyzer_types::ValidTodoComment {
    let analyzer = LineAnalyzer::new();
    match analyzer.process(line, 0) {
        Some(TodoCommentResult::Valid(v)) => v,
        other => panic!("expected Valid for {:?}, got {:?}", line, other),
    }
}

fn expect_invalid(line: &str) -> todo_scan::line_analyzer_types::InvalidTodoComment {
    let analyzer = LineAnalyzer::new();
    match analyzer.process(line, 0) {
        Some(TodoCommentResult::Invalid(v)) => v,
        other => panic!("expected Invalid for {:?}, got {:?}", line, other),
    }
}

fn expect_not_applicable(line: &str) {
    let analyzer = LineAnalyzer::new();
    let r = analyzer.process(line, 0);
    assert!(r.is_none(), "expected no match for {:?}, got {:?}", line, r);
}

#[test]
fn test_keyword_case_sensitivity() {
    let v = expect_valid("// todo: x");
    assert_eq!(v.line_info.comment, "x");
    expect_not_applicable("// TODO: x");
}

#[test]
fn test_missing_colon_is_not_applicable() {
    expect_not_applicable("// todo this has no colon");
}

#[test]
fn test_single_slash_is_not_applicable() {
    expect_not_applicable("/ todo: missing a slash");
}

#[test]
fn test_whitespace_tolerance() {
    let reference = expect_valid("// todo: valid");
    for line in ["//todo      : valid", "//         todo      : valid"] {
        let v = expect_valid(line);
        assert_eq!(v.line, reference.line);
        assert_eq!(v.line_info, reference.line_info);
        assert!(v.line_info.delimiters.is_empty());
        assert_eq!(v.line_info.comment, "valid");
    }
}

#[test]
fn test_single_delimiter_round_trip() {
    let v = expect_valid("// todo(ticket123): fix the thing");
    assert_eq!(v.line, 1);
    assert_eq!(v.line_info.comment, "fix the thing");
    assert_eq!(v.line_info.delimiters.len(), 1);
    assert_eq!(v.line_info.delimiters[0].delimiter_type, Delimiter::Parentheses);
    assert_eq!(v.line_info.delimiters[0].content, "ticket123");
    assert!(v.blame_info.is_none());
}

#[test]
fn test_duplicate_delimiter_kind_is_invalid() {
    let inv = expect_invalid("// todo(a)(b): msg");
    assert_eq!(inv.line_info.full_text, "// todo(a)(b): msg");
    assert_eq!(inv.line, 1);
    assert!(inv.blame_info.is_none());
}

#[test]
fn test_empty_delimiter_content_is_invalid() {
    expect_invalid("// todo(): msg");
}

#[test]
fn test_punctuated_delimiter_content_is_invalid() {
    expect_invalid("// todo(a b): msg");
}

#[test]
fn test_zero_delimiters_is_valid() {
    let v = expect_valid("// todo: just a note");
    assert_eq!(v.line, 1);
    assert_eq!(v.line_info.comment, "just a note");
    assert!(v.line_info.delimiters.is_empty());
}

#[test]
fn test_classification_is_idempotent() {
    let analyzer = LineAnalyzer::new();
    for line in [
        "// todo: x",
        "// TODO: x",
        "// todo(a)(b): msg",
        "// todo(ticket123): fix the thing",
        "nothing here",
    ] {
        let first = analyzer.process(line, 7);
        let second = analyzer.process(line, 7);
        assert_eq!(first, second, "two runs disagree on {:?}", line);
    }
}

#[test]
fn test_extract_delimiter_content_each_kind() {
    let cases: [(Delimiter, &str, Option<&str>); 7] = [
        (Delimiter::Braces, "hello {world}", Some("world")),
        (Delimiter::Parentheses, "123 (456)", Some("456")),
        (Delimiter::Brackets, "[brackets]", Some("brackets")),
        (Delimiter::Angles, "angle <brackets>", Some("brackets")),
        (Delimiter::Braces, "no braces", None),
        (Delimiter::Parentheses, "mismatched (parenthesis]", None),
        (Delimiter::Angles, "no angles", None),
    ];
    for (delimiter, line, expected) in cases {
        let r = LineAnalyzer::extract_delimiter_content(&delimiter, line);
        assert_eq!(r.as_deref(), expected, "extraction for {:?} on {:?}", delimiter, line);
    }
}

#[test]
fn test_validate_marker_content() {
    assert!(LineAnalyzer::validate(""));
    assert!(LineAnalyzer::validate("(abc)"));
    assert!(LineAnalyzer::validate("{x_1}"));
    assert!(LineAnalyzer::validate("[B2]"));
    assert!(LineAnalyzer::validate("<tag>"));
    assert!(LineAnalyzer::validate("x"));
    assert!(!LineAnalyzer::validate("()"));
    assert!(!LineAnalyzer::validate("(a b)"));
    assert!(!LineAnalyzer::validate("(a)(b)"));
    assert!(!LineAnalyzer::validate("<a-b>"));
}

#[test]
fn test_marker_after_code() {
    let v = expect_valid("let x = 1; // todo{cleanup}: later");
    assert_eq!(v.line_info.comment, "later");
    assert_eq!(v.line_info.delimiters.len(), 1);
    assert_eq!(v.line_info.delimiters[0].delimiter_type, Delimiter::Braces);
    assert_eq!(v.line_info.delimiters[0].content, "cleanup");
}

#[test]
fn test_invalid_keeps_only_matched_text() {
    let inv = expect_invalid("int x; // todo(a b): fix");
    assert_eq!(inv.line_info.full_text, "// todo(a b): fix");
}

#[test]
fn test_empty_free_text_still_matches() {
    let v = expect_valid("// todo:");
    assert_eq!(v.line_info.comment, "");
    assert!(v.line_info.delimiters.is_empty());
}

#[test]
fn test_line_numbers_are_one_based() {
    let analyzer = LineAnalyzer::new();
    match analyzer.process("// todo: x", 4) {
        Some(TodoCommentResult::Valid(v)) => assert_eq!(v.line, 5),
        other => panic!("expected Valid, got {:?}", other),
    }
}

#[test]
fn test_multiple_delimiters_in_fixed_kind_order() {
    // The span is not a single bracketed group, so it validates, and the
    // fields come out in kind order, not in order of appearance.
    let v = expect_valid("// todo<z>[y]{x}(w): all four");
    let kinds: Vec<_> = v.line_info.delimiters.iter().map(|d| d.delimiter_type).collect();
    assert_eq!(
        kinds,
        vec![Delimiter::Parentheses, Delimiter::Braces, Delimiter::Brackets, Delimiter::Angles]
    );
    let contents: Vec<_> = v.line_info.delimiters.iter().map(|d| d.content.as_str()).collect();
    assert_eq!(contents, vec!["w", "x", "y", "z"]);
}

#[test]
fn test_free_text_may_contain_colons() {
    let v = expect_valid("// todo: see https://example.com");
    assert_eq!(v.line_info.comment, "see https://example.com");
}

#[test]
fn test_delimiter_names_and_chars() {
    assert_eq!(Delimiter::Parentheses.get_name(), "parentheses");
    assert_eq!(Delimiter::Braces.get_name(), "braces");
    assert_eq!(Delimiter::Brackets.get_name(), "brackets");
    assert_eq!(Delimiter::Angles.get_name(), "angles");
    assert_eq!(Delimiter::Parentheses.get_chars().to_tuple(), ('(', ')'));
    assert_eq!(Delimiter::Braces.get_chars().to_tuple(), ('{', '}'));
    assert_eq!(Delimiter::Brackets.get_chars().to_tuple(), ('[', ']'));
    assert_eq!(Delimiter::Angles.get_chars().to_tuple(), ('<', '>'));
}

#[test]
fn test_marker_and_capture_group_names() {
    assert_eq!(CommentMarker::Todo.get_name(), "todo");
    assert_eq!(CaptureGroupNames::MarkerContent.get_name(), "MarkerContent");
    assert_eq!(CaptureGroupNames::CommentContent.get_name(), "CommentContent");
}

#[test]
fn test_recognize_splits_the_spans() {
    let analyzer = LineAnalyzer::new();
    let m = analyzer.recognize("// todo (x) : message").expect("should match");
    assert_eq!(m.full_text, "// todo (x) : message");
    assert_eq!(m.marker_content, "(x)");
    assert_eq!(m.comment_content, "message");
    assert!(analyzer.recognize("// note: other convention").is_none());
}
