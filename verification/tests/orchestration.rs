//! The orchestration state machine: UI message mapping and the terminal
//! result.

use sidecar::errors::{StreamFailure, ToolError};
use sidecar::identifier::SymbolIdentifier;
use sidecar::orchestration::OrchestrationLoop;
use sidecar::text_document::{Position, Range};
use sidecar::ui_event::UIEventWithID;

fn line_range(start: usize, end: usize) -> Range {
    Range::new(Position::new(start, 0, 0), Position::new(end, 0, 0))
}

fn new_loop(code: &str, start_line: usize) -> OrchestrationLoop {
    OrchestrationLoop::new(
        code.to_string(),
        start_line,
        "root-1".to_string(),
        SymbolIdentifier::with_file_path("foo", "src/main.py"),
        "edit-1".to_string(),
        "src/main.py".to_string(),
    )
}

fn drain(looper: &mut OrchestrationLoop) -> Vec<UIEventWithID> {
    let mut out = Vec::new();
    while let Some(batch) = looper.next_ui_messages() {
        out.extend(batch);
    }
    out
}

#[test]
fn started_edit_opens_with_start_message_and_code_fence() {
    let mut looper = new_loop("def foo():\n    return 1", 10);
    looper.on_model_delta(
        "<<<<<<< SEARCH\n    return 1\n=======\n    return 2\n>>>>>>> REPLACE\n".to_string(),
    );
    let messages = drain(&mut looper);
    let range = line_range(11, 11);
    let symbol = SymbolIdentifier::with_file_path("foo", "src/main.py");
    assert_eq!(
        messages,
        vec![
            UIEventWithID::start_edit_streaming(
                "root-1".to_string(),
                symbol.clone(),
                "edit-1".to_string(),
                range,
                "src/main.py".to_string(),
            ),
            UIEventWithID::delta_edit_streaming(
                "root-1".to_string(),
                symbol.clone(),
                "```\n".to_string(),
                "edit-1".to_string(),
                range,
                "src/main.py".to_string(),
            ),
            UIEventWithID::delta_edit_streaming(
                "root-1".to_string(),
                symbol.clone(),
                "    return 2".to_string(),
                "edit-1".to_string(),
                range,
                "src/main.py".to_string(),
            ),
            UIEventWithID::delta_edit_streaming(
                "root-1".to_string(),
                symbol.clone(),
                "\n```".to_string(),
                "edit-1".to_string(),
                range,
                "src/main.py".to_string(),
            ),
            UIEventWithID::end_edit_streaming(
                "root-1".to_string(),
                symbol.clone(),
                "edit-1".to_string(),
                range,
                "src/main.py".to_string(),
            ),
        ]
    );
    // Everything forwarded; nothing further is pending.
    assert!(looper.next_ui_messages().is_none());
}

#[test]
fn unresolved_block_forwards_no_messages() {
    let mut looper = new_loop("def foo():\n    return 1", 10);
    looper.on_model_delta(
        "<<<<<<< SEARCH\n    return 99\n=======\n    return 3\n>>>>>>> REPLACE\n".to_string(),
    );
    assert!(looper.next_ui_messages().is_none());
}

#[test]
fn successful_stream_yields_the_full_response() {
    let looper = new_loop("a", 0);
    let result = looper.finish(Some(Ok("the whole answer".to_string())));
    assert_eq!(result.unwrap().response(), "the whole answer");
}

#[test]
fn failing_stream_yields_retries_exhausted_even_mid_block() {
    let mut looper = new_loop("def foo():\n    return 1", 10);
    // The parser is left holding an incomplete block: resolved, not closed.
    looper.on_model_delta("<<<<<<< SEARCH\n    return 1\n=======\n    retu".to_string());
    let result = looper.finish(Some(Err(StreamFailure)));
    assert_eq!(result.unwrap_err(), ToolError::RetriesExhausted);
}

#[test]
fn stream_that_never_resolves_yields_retries_exhausted() {
    let looper = new_loop("a", 0);
    let result = looper.finish(None);
    assert_eq!(result.unwrap_err(), ToolError::RetriesExhausted);
}

#[test]
fn events_pending_after_termination_can_be_left_unforwarded() {
    // The loop stops reading messages the instant the terminal result
    // arrives; content already parsed but not yet forwarded simply stays.
    let mut looper = new_loop("a\nb", 0);
    looper.on_model_delta("<<<<<<< SEARCH\na\n=======\nc\n>>>>>>> REPLACE\n".to_string());
    // Forward only the first batch, then terminate.
    let first = looper.next_ui_messages();
    assert!(first.is_some());
    let result = looper.finish(Some(Ok("done".to_string())));
    assert_eq!(result.unwrap().response(), "done");
}
