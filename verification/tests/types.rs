//! The data types around the editing core.

use sidecar::gotodefinition::{
    DefinitionPathAndRange, GoToDefinitionRequest, GoToDefinitionResponse,
};
use sidecar::identifier::{
    OutlineNodeContent, OutlineNodeType, Snippet, SnippetReRankInformation, SymbolIdentifier,
};
use sidecar::important::{
    CodeSymbolImportantResponse, CodeSymbolWithSteps, CodeSymbolWithThinking,
};
use sidecar::search_and_replace::SearchAndReplaceEditingResponse;
use sidecar::text_document::{Position, Range};

fn line_range(start: usize, end: usize) -> Range {
    Range::new(Position::new(start, 0, 0), Position::new(end, 0, 0))
}

fn sample_snippet() -> Snippet {
    Snippet::new(
        "foo".to_string(),
        line_range(10, 12),
        "src/main.py".to_string(),
        "def foo():\n    return 1".to_string(),
        OutlineNodeContent::new(OutlineNodeType::Function),
    )
}

#[test]
fn snippet_getters_return_what_was_stored() {
    let snippet = sample_snippet();
    assert_eq!(snippet.symbol_name(), "foo");
    assert_eq!(snippet.file_path(), "src/main.py");
    assert_eq!(snippet.content(), "def foo():\n    return 1");
    assert_eq!(snippet.range(), &line_range(10, 12));
    // No language was recorded, so the label is empty.
    assert_eq!(snippet.language(), "");
}

#[test]
fn snippet_to_xml_renders_the_exact_template() {
    let snippet = sample_snippet();
    assert_eq!(
        snippet.to_xml(),
        "<name>\nfoo\n</name>\n<file_path>\nsrc/main.py:10-12\n</file_path>\n<content>\n```\ndef foo():\n    return 1\n```\n</content>"
    );
}

#[test]
fn snippet_to_xml_renders_language_and_larger_line_numbers() {
    let snippet = Snippet::new(
        "run".to_string(),
        line_range(0, 105),
        "src/run.py".to_string(),
        "def run(): pass".to_string(),
        OutlineNodeContent::new(OutlineNodeType::Function),
    );
    // The language label is empty until one is recorded; the line numbers
    // render in plain decimal.
    assert_eq!(
        snippet.to_xml(),
        "<name>\nrun\n</name>\n<file_path>\nsrc/run.py:0-105\n</file_path>\n<content>\n```\ndef run(): pass\n```\n</content>"
    );
}

#[test]
fn snippet_match_requires_location_agreement() {
    let snippet = sample_snippet();
    assert!(snippet.is_potential_match(&line_range(10, 12), "src/main.py", false));
    assert!(!snippet.is_potential_match(&line_range(10, 13), "src/main.py", false));
    assert!(!snippet.is_potential_match(&line_range(10, 12), "src/other.py", false));
}

#[test]
fn outline_match_requires_a_class_like_snippet() {
    let function_snippet = sample_snippet();
    assert!(!function_snippet.is_potential_match(&line_range(10, 12), "src/main.py", true));

    let class_snippet = Snippet::new(
        "Foo".to_string(),
        line_range(1, 9),
        "src/main.py".to_string(),
        "class Foo:\n    pass".to_string(),
        OutlineNodeContent::new(OutlineNodeType::ClassDefinition),
    );
    assert!(class_snippet.is_potential_match(&line_range(1, 9), "src/main.py", true));
}

#[test]
fn symbol_identifier_with_and_without_file() {
    let bare = SymbolIdentifier::new_symbol("foo");
    assert_eq!(bare.symbol_name(), "foo");
    assert_eq!(bare.fs_file_path(), None);

    let located = SymbolIdentifier::with_file_path("foo", "src/main.py");
    assert_eq!(located.symbol_name(), "foo");
    assert_eq!(located.fs_file_path(), Some("src/main.py".to_string()));
}

#[test]
fn rerank_information_starts_as_full_snippet() {
    let info = SnippetReRankInformation::new(3, line_range(4, 8), "src/lib.py".to_string());
    assert_eq!(info.idx(), 3);
    assert_eq!(info.range(), &line_range(4, 8));
    assert_eq!(info.fs_file_path(), "src/lib.py");
    assert!(!info.is_outline());

    let outline = info.set_is_outline();
    assert!(outline.is_outline());
    assert_eq!(outline.idx(), 3);
}

#[test]
fn editing_response_hands_back_its_text() {
    let response = SearchAndReplaceEditingResponse::new("full answer".to_string());
    assert_eq!(response.response(), "full answer");
}

#[test]
fn code_symbol_with_thinking_getters() {
    let symbol = CodeSymbolWithThinking::new(
        "parse".to_string(),
        "it drives the grammar".to_string(),
        "src/parse.rs".to_string(),
    );
    assert_eq!(symbol.code_symbol(), "parse");
    assert_eq!(symbol.thinking(), "it drives the grammar");
    assert_eq!(symbol.file_path(), "src/parse.rs");
}

#[test]
fn code_symbol_with_steps_getters() {
    let symbol = CodeSymbolWithSteps::new(
        "render".to_string(),
        vec!["add a parameter".to_string(), "thread it through".to_string()],
        true,
        "src/render.rs".to_string(),
    );
    assert_eq!(symbol.code_symbol(), "render");
    assert_eq!(
        symbol.steps(),
        &["add a parameter".to_string(), "thread it through".to_string()]
    );
    assert!(symbol.is_new());
    assert_eq!(symbol.file_path(), "src/render.rs");
}

#[test]
fn important_response_keeps_both_lists() {
    let response = CodeSymbolImportantResponse::new(
        vec![CodeSymbolWithThinking::new(
            "a".to_string(),
            "why".to_string(),
            "f.rs".to_string(),
        )],
        vec![CodeSymbolWithSteps::new(
            "b".to_string(),
            vec!["step".to_string()],
            false,
            "g.rs".to_string(),
        )],
    );
    assert_eq!(response.symbols().len(), 1);
    assert_eq!(response.symbols()[0].code_symbol(), "a");
    assert_eq!(response.ordered_symbols().len(), 1);
    assert_eq!(response.ordered_symbols()[0].code_symbol(), "b");

    let symbols = response.remove_symbols();
    assert_eq!(symbols.len(), 1);
    assert_eq!(symbols[0].code_symbol(), "a");
}

#[test]
fn go_to_definition_types_carry_their_data() {
    let request = GoToDefinitionRequest::new(
        "src/main.py".to_string(),
        "http://localhost:42427".to_string(),
        Position::new(5, 2, 80),
    );
    assert_eq!(request.fs_file_path(), "src/main.py");
    assert_eq!(request.editor_url(), "http://localhost:42427");
    assert_eq!(request.position(), &Position::new(5, 2, 80));

    let response = GoToDefinitionResponse::new(vec![DefinitionPathAndRange::new(
        "src/def.py".to_string(),
        line_range(3, 7),
    )]);
    let definitions = response.definitions();
    assert_eq!(definitions.len(), 1);
    assert_eq!(definitions[0].file_path(), "src/def.py");
    assert_eq!(definitions[0].range(), &line_range(3, 7));
}
