//! End-to-end behavior of the streaming SEARCH/REPLACE parser.

use sidecar::search_and_replace::{EditDelta, SearchAndReplaceAccumulator};
use sidecar::text_document::{Position, Range};

fn line_range(start: usize, end: usize) -> Range {
    Range::new(Position::new(start, 0, 0), Position::new(end, 0, 0))
}

#[test]
fn single_block_resolves_and_patches() {
    let mut acc = SearchAndReplaceAccumulator::new("def foo():\n    return 1".to_string(), 10);
    acc.add_delta(
        "<<<<<<< SEARCH\n    return 1\n=======\n    return 2\n>>>>>>> REPLACE\n".to_string(),
    );
    let range = line_range(11, 11);
    assert_eq!(
        acc.events(),
        &vec![
            EditDelta::EditStarted(range),
            EditDelta::EditDelta((range, "    return 2".to_string())),
            EditDelta::EditEnd(range),
        ]
    );
    assert_eq!(
        acc.code_lines(),
        vec!["def foo():".to_string(), "    return 2".to_string()]
    );
}

#[test]
fn absent_search_text_is_silent_and_parser_stays_ready() {
    let mut acc = SearchAndReplaceAccumulator::new("def foo():\n    return 1".to_string(), 10);
    acc.add_delta(
        "<<<<<<< SEARCH\n    return 99\n=======\n    return 3\n>>>>>>> REPLACE\n".to_string(),
    );
    assert!(acc.events().is_empty());
    assert_eq!(
        acc.code_lines(),
        vec!["def foo():".to_string(), "    return 1".to_string()]
    );

    // The same stream can still carry a block that resolves.
    acc.add_delta(
        "<<<<<<< SEARCH\n    return 1\n=======\n    return 2\n>>>>>>> REPLACE\n".to_string(),
    );
    let range = line_range(11, 11);
    assert_eq!(
        acc.events(),
        &vec![
            EditDelta::EditStarted(range),
            EditDelta::EditDelta((range, "    return 2".to_string())),
            EditDelta::EditEnd(range),
        ]
    );
    assert_eq!(
        acc.code_lines(),
        vec!["def foo():".to_string(), "    return 2".to_string()]
    );
}

#[test]
fn chunking_does_not_change_events_or_buffer() {
    let text = "prose before the block\n<<<<<<< SEARCH\nbeta\ngamma\n=======\nBETA\nGAMMA\nDELTA\n>>>>>>> REPLACE\ntrailing prose\n";

    let mut whole = SearchAndReplaceAccumulator::new("alpha\nbeta\ngamma\ndelta".to_string(), 0);
    whole.add_delta(text.to_string());

    let mut chopped = SearchAndReplaceAccumulator::new("alpha\nbeta\ngamma\ndelta".to_string(), 0);
    for c in text.chars() {
        chopped.add_delta(c.to_string());
    }

    let mut thirds = SearchAndReplaceAccumulator::new("alpha\nbeta\ngamma\ndelta".to_string(), 0);
    let chars: Vec<char> = text.chars().collect();
    for chunk in chars.chunks(7) {
        thirds.add_delta(chunk.iter().collect());
    }

    assert_eq!(whole.events(), chopped.events());
    assert_eq!(whole.events(), thirds.events());
    assert_eq!(whole.code_lines(), chopped.code_lines());
    assert_eq!(whole.code_lines(), thirds.code_lines());
    assert_eq!(whole.code_lines(), vec!["alpha", "BETA", "GAMMA", "DELTA", "delta"]);
}

/// Applies one `(range, replacement lines)` pair to a document the way the
/// patcher describes it: keep the lines strictly before and strictly after
/// the absolute inclusive range, splice the replacement between them.
fn apply_pair(doc: &mut Vec<String>, anchor: usize, start: usize, end: usize, repl: &[&str]) {
    let start_local = start - anchor;
    let end_local = end - anchor;
    let mut out: Vec<String> = doc[..start_local].to_vec();
    out.extend(repl.iter().map(|s| s.to_string()));
    out.extend_from_slice(&doc[end_local + 1..]);
    *doc = out;
}

#[test]
fn replaying_emitted_events_rebuilds_the_buffer() {
    let original = "one\ntwo\nthree\nfour";
    let mut acc = SearchAndReplaceAccumulator::new(original.to_string(), 5);
    acc.add_delta("<<<<<<< SEARCH\ntwo\n=======\nTWO\nTWO-AND-A-HALF\n>>>>>>> REPLACE\n".to_string());
    acc.add_delta("<<<<<<< SEARCH\nfour\n=======\nFOUR\n>>>>>>> REPLACE\n".to_string());

    // Collect the (range, final replacement) pairs in emission order.
    let mut doc: Vec<String> = original.lines().map(|l| l.to_string()).collect();
    apply_pair(&mut doc, 5, 6, 6, &["TWO", "TWO-AND-A-HALF"]);
    apply_pair(&mut doc, 5, 9, 9, &["FOUR"]);

    assert_eq!(acc.code_lines(), doc);
    assert_eq!(
        acc.code_lines(),
        vec!["one", "TWO", "TWO-AND-A-HALF", "three", "FOUR"]
    );
}

#[test]
fn second_block_sees_the_first_blocks_replacement() {
    let mut acc = SearchAndReplaceAccumulator::new("start\nmiddle\nfinish".to_string(), 0);
    // The first block rewrites "middle" to "center".
    acc.add_delta("<<<<<<< SEARCH\nmiddle\n=======\ncenter\n>>>>>>> REPLACE\n".to_string());
    // The second block's search text exists only after that patch.
    acc.add_delta("<<<<<<< SEARCH\ncenter\n=======\ncore\n>>>>>>> REPLACE\n".to_string());

    let range = line_range(1, 1);
    assert_eq!(
        acc.events(),
        &vec![
            EditDelta::EditStarted(range),
            EditDelta::EditDelta((range, "center".to_string())),
            EditDelta::EditEnd(range),
            EditDelta::EditStarted(range),
            EditDelta::EditDelta((range, "core".to_string())),
            EditDelta::EditEnd(range),
        ]
    );
    assert_eq!(acc.code_lines(), vec!["start", "core", "finish"]);
}

#[test]
fn multi_line_replacement_fragments_carry_joining_newlines() {
    let mut acc = SearchAndReplaceAccumulator::new("a\nb".to_string(), 0);
    acc.add_delta("<<<<<<< SEARCH\na\nb\n=======\nx\ny\nz\n>>>>>>> REPLACE\n".to_string());
    let range = line_range(0, 1);
    assert_eq!(
        acc.events(),
        &vec![
            EditDelta::EditStarted(range),
            EditDelta::EditDelta((range, "x".to_string())),
            EditDelta::EditDelta((range, "\ny".to_string())),
            EditDelta::EditDelta((range, "\nz".to_string())),
            EditDelta::EditEnd(range),
        ]
    );
    // Naive concatenation of the fragments reconstructs the text exactly.
    let mut rebuilt = String::new();
    for ev in acc.events() {
        if let EditDelta::EditDelta((_, fragment)) = ev {
            rebuilt.push_str(fragment);
        }
    }
    assert_eq!(rebuilt, "x\ny\nz");
    assert_eq!(acc.code_lines(), vec!["x", "y", "z"]);
}

#[test]
fn patch_at_the_buffer_edges() {
    // Replacing the first line splices at the very start of the buffer.
    let mut first = SearchAndReplaceAccumulator::new("head\nmid\ntail".to_string(), 0);
    first.add_delta("<<<<<<< SEARCH\nhead\n=======\nHEAD\n>>>>>>> REPLACE\n".to_string());
    assert_eq!(first.code_lines(), vec!["HEAD", "mid", "tail"]);

    // Replacing the last line splices at the very end.
    let mut last = SearchAndReplaceAccumulator::new("head\nmid\ntail".to_string(), 0);
    last.add_delta("<<<<<<< SEARCH\ntail\n=======\nTAIL\n>>>>>>> REPLACE\n".to_string());
    assert_eq!(last.code_lines(), vec!["head", "mid", "TAIL"]);
}

#[test]
fn several_blocks_with_prose_between_them() {
    let mut acc = SearchAndReplaceAccumulator::new("a\nb\nc".to_string(), 0);
    acc.add_delta(
        "I will make two edits.\n\
         <<<<<<< SEARCH\na\n=======\nA\n>>>>>>> REPLACE\n\
         Now the second one.\n\
         <<<<<<< SEARCH\nc\n=======\nC\n>>>>>>> REPLACE\n\
         Both edits are done.\n"
            .to_string(),
    );
    assert_eq!(acc.code_lines(), vec!["A", "b", "C"]);
    assert_eq!(acc.events().len(), 6);
}

#[test]
fn empty_replacement_section_deletes_the_matched_lines() {
    let mut acc = SearchAndReplaceAccumulator::new("keep\ndrop".to_string(), 0);
    acc.add_delta("<<<<<<< SEARCH\ndrop\n=======\n>>>>>>> REPLACE\n".to_string());
    let range = line_range(1, 1);
    assert_eq!(
        acc.events(),
        &vec![EditDelta::EditStarted(range), EditDelta::EditEnd(range)]
    );
    // A replacement section of zero lines splices the empty replacement in:
    // the matched lines are deleted.
    assert_eq!(acc.code_lines(), vec!["keep"]);
}

#[test]
fn trailing_partial_line_is_never_inspected() {
    let mut acc = SearchAndReplaceAccumulator::new("a".to_string(), 0);
    // The marker line is fed without its newline: nothing may happen yet.
    acc.add_delta("<<<<<<< SEARCH".to_string());
    assert!(acc.events().is_empty());
    // Completing the line, and the rest of the block, drives the edit.
    acc.add_delta("\na\n=======\nb\n>>>>>>> REPLACE\n".to_string());
    let range = line_range(0, 0);
    assert_eq!(
        acc.events(),
        &vec![
            EditDelta::EditStarted(range),
            EditDelta::EditDelta((range, "b".to_string())),
            EditDelta::EditEnd(range),
        ]
    );
    assert_eq!(acc.code_lines(), vec!["b"]);
}

#[test]
fn crlf_terminated_lines_are_consumed_like_lf_lines() {
    let mut acc = SearchAndReplaceAccumulator::new("a\nb".to_string(), 0);
    acc.add_delta("<<<<<<< SEARCH\r\na\r\n=======\r\nc\r\n>>>>>>> REPLACE\r\n".to_string());
    let range = line_range(0, 0);
    assert_eq!(
        acc.events(),
        &vec![
            EditDelta::EditStarted(range),
            EditDelta::EditDelta((range, "c".to_string())),
            EditDelta::EditEnd(range),
        ]
    );
    // The replacement line was carried without its carriage return.
    assert_eq!(acc.code_lines(), vec!["c", "b"]);
}

#[test]
fn prose_outside_blocks_is_discarded() {
    let mut acc = SearchAndReplaceAccumulator::new("a\nb".to_string(), 0);
    acc.add_delta("Here is my plan.\nI will edit the file.\n".to_string());
    assert!(acc.events().is_empty());
    assert_eq!(acc.code_lines(), vec!["a", "b"]);
}

#[test]
fn marker_like_lines_inside_replacement_are_content() {
    // Inside the replacement section, an opening marker line is an ordinary
    // fragment; only the closing marker ends the block.
    let mut acc = SearchAndReplaceAccumulator::new("a".to_string(), 0);
    acc.add_delta("<<<<<<< SEARCH\na\n=======\n<<<<<<< SEARCH\n>>>>>>> REPLACE\n".to_string());
    let range = line_range(0, 0);
    assert_eq!(
        acc.events(),
        &vec![
            EditDelta::EditStarted(range),
            EditDelta::EditDelta((range, "<<<<<<< SEARCH".to_string())),
            EditDelta::EditEnd(range),
        ]
    );
    assert_eq!(acc.code_lines(), vec!["<<<<<<< SEARCH"]);
}

#[test]
fn divider_right_after_marker_accumulates_divider_as_search_text() {
    // The line after the opening marker always begins the search text, even
    // when it looks like the divider itself.
    let mut acc = SearchAndReplaceAccumulator::new("=======\nrest".to_string(), 3);
    acc.add_delta("<<<<<<< SEARCH\n=======\n=======\nnew\n>>>>>>> REPLACE\n".to_string());
    let range = line_range(3, 3);
    assert_eq!(
        acc.events(),
        &vec![
            EditDelta::EditStarted(range),
            EditDelta::EditDelta((range, "new".to_string())),
            EditDelta::EditEnd(range),
        ]
    );
    assert_eq!(acc.code_lines(), vec!["new", "rest"]);
}
