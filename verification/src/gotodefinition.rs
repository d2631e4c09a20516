//! Going to a symbol's definition.
//!
//! The request names a position in a file and the editor endpoint to ask;
//! the response lists where the definitions live. The editor call itself is
//! I/O and lives outside the library; these types carry the data across.

use vstd::prelude::*;

use crate::text_document::{Position, Range};

verus! {

/// What a `GoToDefinitionRequest` holds, as the contracts see it.
pub struct GoToDefinitionRequestData {
    pub fs_file_path: Seq<char>,
    pub editor_url: Seq<char>,
    pub position: Position,
}

/// A request to resolve the definition of the symbol at a position.
#[derive(Debug)]
pub struct GoToDefinitionRequest {
    fs_file_path: String,
    editor_url: String,
    position: Position,
}

impl View for GoToDefinitionRequest {
    type V = GoToDefinitionRequestData;

    closed spec fn view(&self) -> GoToDefinitionRequestData {
        GoToDefinitionRequestData {
            fs_file_path: self.fs_file_path@,
            editor_url: self.editor_url@,
            position: self.position,
        }
    }
}

impl GoToDefinitionRequest {
    pub fn new(fs_file_path: String, editor_url: String, position: Position) -> (r: Self)
        ensures
            r@ == (GoToDefinitionRequestData {
                fs_file_path: fs_file_path@,
                editor_url: editor_url@,
                position,
            }),
    {
        GoToDefinitionRequest { fs_file_path, editor_url, position }
    }

    /// The file the position lies in.
    pub fn fs_file_path(&self) -> (r: &str)
        ensures
            r@ == self@.fs_file_path,
    {
        self.fs_file_path.as_str()
    }

    /// The editor endpoint to ask.
    pub fn editor_url(&self) -> (r: &str)
        ensures
            r@ == self@.editor_url,
    {
        self.editor_url.as_str()
    }

    /// The position whose symbol is to be resolved.
    pub fn position(&self) -> (r: &Position)
        ensures
            *r == self@.position,
    {
        &self.position
    }
}

/// What a `DefinitionPathAndRange` holds, as the contracts see it.
pub struct DefinitionData {
    pub fs_file_path: Seq<char>,
    pub range: Range,
}

/// One place a definition lives: a file and the range inside it.
#[derive(Debug)]
pub struct DefinitionPathAndRange {
    fs_file_path: String,
    range: Range,
}

impl View for DefinitionPathAndRange {
    type V = DefinitionData;

    closed spec fn view(&self) -> DefinitionData {
        DefinitionData { fs_file_path: self.fs_file_path@, range: self.range }
    }
}

impl DeepView for DefinitionPathAndRange {
    type V = DefinitionData;

    open spec fn deep_view(&self) -> DefinitionData {
        self@
    }
}

impl DefinitionPathAndRange {
    pub fn new(fs_file_path: String, range: Range) -> (r: Self)
        ensures
            r@ == (DefinitionData { fs_file_path: fs_file_path@, range }),
    {
        DefinitionPathAndRange { fs_file_path, range }
    }

    /// The file the definition lives in.
    pub fn file_path(&self) -> (r: &str)
        ensures
            r@ == self@.fs_file_path,
    {
        self.fs_file_path.as_str()
    }

    /// The range the definition covers.
    pub fn range(&self) -> (r: &Range)
        ensures
            *r == self@.range,
    {
        &self.range
    }
}

/// Everywhere the symbol's definition lives.
#[derive(Debug)]
pub struct GoToDefinitionResponse {
    definitions: Vec<DefinitionPathAndRange>,
}

impl View for GoToDefinitionResponse {
    type V = Seq<DefinitionData>;

    closed spec fn view(&self) -> Seq<DefinitionData> {
        self.definitions.deep_view()
    }
}

impl GoToDefinitionResponse {
    pub fn new(definitions: Vec<DefinitionPathAndRange>) -> (r: Self)
        ensures
            r@ == definitions.deep_view(),
    {
        GoToDefinitionResponse { definitions }
    }

    /// The listed definitions, in the editor's order.
    pub fn definitions(self) -> (r: Vec<DefinitionPathAndRange>)
        ensures
            r.deep_view() == self@,
    {
        let GoToDefinitionResponse { definitions } = self;
        definitions
    }
}

} // verus!
