//! The range resolver and the newline counter.

use sidecar::search_and_replace::{get_last_newline_line_number, get_range_for_search_block};

#[test]
fn resolves_single_line_block() {
    let range = get_range_for_search_block("def foo():\n    return 1", 10, "    return 1").unwrap();
    assert_eq!(range.start_line(), 11);
    assert_eq!(range.end_line(), 11);
}

#[test]
fn resolves_multi_line_block() {
    let range = get_range_for_search_block("a\nb\nc\nd", 100, "b\nc").unwrap();
    assert_eq!(range.start_line(), 101);
    assert_eq!(range.end_line(), 102);
}

#[test]
fn first_of_several_identical_windows_wins() {
    let range = get_range_for_search_block("x\nsame\ny\nsame\nz", 0, "same").unwrap();
    assert_eq!(range.start_line(), 1);
    assert_eq!(range.end_line(), 1);
}

#[test]
fn absent_block_does_not_resolve() {
    assert!(get_range_for_search_block("a\nb\nc", 0, "q").is_none());
}

#[test]
fn block_longer_than_buffer_does_not_resolve() {
    assert!(get_range_for_search_block("a\nb", 0, "a\nb\nc").is_none());
}

#[test]
fn empty_block_does_not_resolve() {
    assert!(get_range_for_search_block("a\nb", 0, "").is_none());
}

#[test]
fn block_must_match_exactly() {
    assert!(get_range_for_search_block("    return 1", 0, "return 1").is_none());
}

#[test]
fn crlf_buffer_lines_match_their_bare_text() {
    let range = get_range_for_search_block("a\r\nb", 0, "a").unwrap();
    assert_eq!(range.start_line(), 0);
    assert_eq!(range.end_line(), 0);
}

#[test]
fn whole_buffer_matches_itself() {
    let range = get_range_for_search_block("a\nb\nc", 7, "a\nb\nc").unwrap();
    assert_eq!(range.start_line(), 7);
    assert_eq!(range.end_line(), 9);
}

#[test]
fn anchor_near_the_line_number_limit() {
    // A match whose absolute end line still fits is reported.
    let range = get_range_for_search_block("a", usize::MAX, "a").unwrap();
    assert_eq!(range.start_line(), usize::MAX);
    assert_eq!(range.end_line(), usize::MAX);
    // One whose absolute end line would not fit resolves to nothing.
    assert!(get_range_for_search_block("a\nb", usize::MAX, "b").is_none());
}

#[test]
fn newline_count_of_unterminated_text_is_none() {
    assert_eq!(get_last_newline_line_number(""), None);
    assert_eq!(get_last_newline_line_number("no newline here"), None);
}

#[test]
fn newline_count_counts_terminated_lines() {
    assert_eq!(get_last_newline_line_number("one\n"), Some(1));
    assert_eq!(get_last_newline_line_number("one\ntwo"), Some(1));
    assert_eq!(get_last_newline_line_number("one\ntwo\nthree\n"), Some(3));
    assert_eq!(get_last_newline_line_number("\n\n"), Some(2));
}
