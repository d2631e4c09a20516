//! Symbols and the snippets of code that carry them.
//!
//! A `Snippet` is one logical piece of code — a class with everything inside
//! it, or a single function — located in a file at a line range. A
//! `SymbolIdentifier` names a symbol, optionally tied to the file it lives
//! in. `SnippetReRankInformation` maps an index handed to a ranking model
//! back to the snippet the index stood for.

use vstd::prelude::*;

use crate::text_document::Range;
use crate::text_lines::{dec_rep, str_eq, usize_to_string};

verus! {

/// The kind of code a snippet's outline node stands for.
#[derive(Debug, Clone, Copy, PartialEq, Eq, Structural)]
pub enum OutlineNodeType {
    /// A class with its body.
    Class,
    /// A class definition without its members.
    ClassDefinition,
    /// A free or member function.
    Function,
    /// A definition by assignment.
    DefinitionAssignment,
}

impl OutlineNodeType {
    /// Whether this kind is a class of some form.
    pub open spec fn spec_is_class_type(&self) -> bool {
        *self == OutlineNodeType::Class || *self == OutlineNodeType::ClassDefinition
    }

    #[verifier::when_used_as_spec(spec_is_class_type)]
    pub fn is_class_type(&self) -> (r: bool)
        ensures
            r == self.spec_is_class_type(),
    {
        match self {
            OutlineNodeType::Class => true,
            OutlineNodeType::ClassDefinition => true,
            _ => false,
        }
    }

    /// Whether this kind is a function.
    pub open spec fn spec_is_function(&self) -> bool {
        *self == OutlineNodeType::Function
    }

    #[verifier::when_used_as_spec(spec_is_function)]
    pub fn is_function(&self) -> (r: bool)
        ensures
            r == self.spec_is_function(),
    {
        match self {
            OutlineNodeType::Function => true,
            _ => false,
        }
    }
}

/// The outline node a snippet was cut from: the structural unit the snippet
/// covers, reduced to what the editing core reads of it.
#[derive(Debug, Clone, Copy, PartialEq, Eq, Structural)]
pub struct OutlineNodeContent {
    pub node_type: OutlineNodeType,
}

impl OutlineNodeContent {
    pub fn new(node_type: OutlineNodeType) -> (r: Self)
        ensures
            r == (OutlineNodeContent { node_type }),
    {
        OutlineNodeContent { node_type }
    }

    /// The kind of code this node stands for.
    pub open spec fn spec_outline_node_type(&self) -> OutlineNodeType {
        self.node_type
    }

    #[verifier::when_used_as_spec(spec_outline_node_type)]
    pub fn outline_node_type(&self) -> (r: OutlineNodeType)
        ensures
            r == self.node_type,
    {
        self.node_type
    }

    /// Whether this node is a class of some form.
    pub open spec fn spec_is_class_type(&self) -> bool {
        self.node_type.spec_is_class_type()
    }

    #[verifier::when_used_as_spec(spec_is_class_type)]
    pub fn is_class_type(&self) -> (r: bool)
        ensures
            r == self.spec_is_class_type(),
    {
        self.node_type.is_class_type()
    }
}

/// What a `Snippet` holds, as the contracts see it.
pub struct SnippetData {
    pub range: Range,
    pub symbol_name: Seq<char>,
    pub fs_file_path: Seq<char>,
    pub content: Seq<char>,
    pub language: Option<Seq<char>>,
    pub outline_node_content: OutlineNodeContent,
}

/// One logical piece of code: its name, where it lives, its text, and the
/// outline node it was cut from.
#[derive(Debug, Clone, PartialEq, Eq)]
pub struct Snippet {
    range: Range,
    symbol_name: String,
    fs_file_path: String,
    content: String,
    language: Option<String>,
    outline_node_content: OutlineNodeContent,
}

impl View for Snippet {
    type V = SnippetData;

    closed spec fn view(&self) -> SnippetData {
        SnippetData {
            range: self.range,
            symbol_name: self.symbol_name@,
            fs_file_path: self.fs_file_path@,
            content: self.content@,
            language: match self.language {
                Some(l) => Some(l@),
                None => None,
            },
            outline_node_content: self.outline_node_content,
        }
    }
}

/// The language label of a snippet: the recorded one, or empty while none
/// has been recorded.
pub open spec fn snippet_language(s: SnippetData) -> Seq<char> {
    match s.language {
        Some(l) => l,
        None => Seq::empty(),
    }
}

/// The XML rendering of a snippet, exactly as `Snippet::to_xml` writes it.
pub open spec fn snippet_xml(s: SnippetData) -> Seq<char> {
    "<name>\n"@ + s.symbol_name + "\n</name>\n<file_path>\n"@ + s.fs_file_path + ":"@ + dec_rep(
        s.range.spec_start_line() as nat,
    ) + "-"@ + dec_rep(s.range.spec_end_line() as nat) + "\n</file_path>\n<content>\n```"@
        + snippet_language(s) + "\n"@ + s.content + "\n```\n</content>"@
}

impl Snippet {
    /// Builds a snippet; no language is recorded yet.
    pub fn new(
        symbol_name: String,
        range: Range,
        fs_file_path: String,
        content: String,
        outline_node_content: OutlineNodeContent,
    ) -> (r: Self)
        ensures
            r@ == (SnippetData {
                range,
                symbol_name: symbol_name@,
                fs_file_path: fs_file_path@,
                content: content@,
                language: None,
                outline_node_content,
            }),
    {
        Snippet { symbol_name, range, fs_file_path, content, language: None, outline_node_content }
    }

    /// Whether this snippet is the one an edit at `range` in `fs_file_path`
    /// is after: the location must agree, and an outline edit additionally
    /// demands a class-like snippet.
    pub open spec fn spec_is_potential_match(
        &self,
        range: Range,
        fs_file_path: Seq<char>,
        is_outline: bool,
    ) -> bool {
        &&& self@.range == range
        &&& self@.fs_file_path == fs_file_path
        &&& (is_outline ==> self@.outline_node_content.spec_is_class_type())
    }

    pub fn is_potential_match(&self, range: &Range, fs_file_path: &str, is_outline: bool) -> (r:
        bool)
        ensures
            r == self.spec_is_potential_match(*range, fs_file_path@, is_outline),
    {
        if self.range == *range && str_eq(self.fs_file_path.as_str(), fs_file_path) {
            if is_outline {
                if self.outline_node_content.is_class_type() {
                    true
                } else {
                    false
                }
            } else {
                true
            }
        } else {
            false
        }
    }

    /// The snippet's language label, or empty while none is recorded.
    pub fn language(&self) -> (r: String)
        ensures
            r@ == snippet_language(self@),
    {
        match &self.language {
            Some(l) => l.clone(),
            None => String::new(),
        }
    }

    /// The file the snippet lives in.
    pub fn file_path(&self) -> (r: &str)
        ensures
            r@ == self@.fs_file_path,
    {
        self.fs_file_path.as_str()
    }

    /// The line range the snippet covers.
    pub fn range(&self) -> (r: &Range)
        ensures
            *r == self@.range,
    {
        &self.range
    }

    /// The snippet's text.
    pub fn content(&self) -> (r: &str)
        ensures
            r@ == self@.content,
    {
        self.content.as_str()
    }

    /// Renders the snippet the way a ranking model is shown it.
    pub fn to_xml(&self) -> (r: String)
        ensures
            r@ == snippet_xml(self@),
    {
        let mut out = "<name>\n".to_owned();
        out.append(self.symbol_name.as_str());
        out.append("\n</name>\n<file_path>\n");
        out.append(self.fs_file_path.as_str());
        out.append(":");
        let start_line = usize_to_string(self.range.start_line());
        out.append(start_line.as_str());
        out.append("-");
        let end_line = usize_to_string(self.range.end_line());
        out.append(end_line.as_str());
        out.append("\n</file_path>\n<content>\n```");
        let language = self.language();
        out.append(language.as_str());
        out.append("\n");
        out.append(self.content.as_str());
        out.append("\n```\n</content>");
        out
    }

    /// The name of the symbol the snippet carries.
    pub fn symbol_name(&self) -> (r: &str)
        ensures
            r@ == self@.symbol_name,
    {
        self.symbol_name.as_str()
    }
}

/// What a `SymbolIdentifier` holds, as the contracts see it.
pub struct SymbolIdentifierData {
    pub symbol_name: Seq<char>,
    pub fs_file_path: Option<Seq<char>>,
}

/// The name of a symbol, optionally tied to the file it lives in. A symbol
/// that is yet to be created carries no file.
#[derive(Debug, Clone, PartialEq, Eq, Hash)]
pub struct SymbolIdentifier {
    symbol_name: String,
    fs_file_path: Option<String>,
}

impl View for SymbolIdentifier {
    type V = SymbolIdentifierData;

    closed spec fn view(&self) -> SymbolIdentifierData {
        SymbolIdentifierData {
            symbol_name: self.symbol_name@,
            fs_file_path: match self.fs_file_path {
                Some(p) => Some(p@),
                None => None,
            },
        }
    }
}

impl SymbolIdentifier {
    /// Names a symbol that is not tied to a file.
    pub fn new_symbol(symbol_name: &str) -> (r: Self)
        ensures
            r@.symbol_name == symbol_name@,
            r@.fs_file_path is None,
    {
        SymbolIdentifier { symbol_name: symbol_name.to_owned(), fs_file_path: None }
    }

    /// The file the symbol lives in, if known.
    pub fn fs_file_path(&self) -> (r: Option<String>)
        ensures
            match r {
                Some(p) => self@.fs_file_path == Some(p@),
                None => self@.fs_file_path is None,
            },
    {
        match &self.fs_file_path {
            Some(p) => Some(p.clone()),
            None => None,
        }
    }

    /// The symbol's name.
    pub fn symbol_name(&self) -> (r: &str)
        ensures
            r@ == self@.symbol_name,
    {
        self.symbol_name.as_str()
    }

    /// Names a symbol at the file it lives in.
    pub fn with_file_path(symbol_name: &str, fs_file_path: &str) -> (r: Self)
        ensures
            r@.symbol_name == symbol_name@,
            r@.fs_file_path == Some(fs_file_path@),
    {
        SymbolIdentifier {
            symbol_name: symbol_name.to_owned(),
            fs_file_path: Some(fs_file_path.to_owned()),
        }
    }

    /// Copies the identifier without changing it.
    pub fn duplicate(&self) -> (r: Self)
        ensures
            r@ == self@,
    {
        let r = SymbolIdentifier {
            symbol_name: self.symbol_name.clone(),
            fs_file_path: match &self.fs_file_path {
                Some(p) => Some(p.clone()),
                None => None,
            },
        };
        proof {
            assert(r@ == self@);
        }
        r
    }
}

/// What a `SnippetReRankInformation` holds, as the contracts see it.
pub struct SnippetReRankData {
    pub idx: usize,
    pub range: Range,
    pub fs_file_path: Seq<char>,
    pub is_outline: bool,
}

/// Maps an index handed to a ranking model back to the snippet it stood
/// for: where that snippet lives and whether only its outline was shown.
#[derive(Debug)]
pub struct SnippetReRankInformation {
    idx: usize,
    range: Range,
    fs_file_path: String,
    is_outline: bool,
}

impl View for SnippetReRankInformation {
    type V = SnippetReRankData;

    closed spec fn view(&self) -> SnippetReRankData {
        SnippetReRankData {
            idx: self.idx,
            range: self.range,
            fs_file_path: self.fs_file_path@,
            is_outline: self.is_outline,
        }
    }
}

impl SnippetReRankInformation {
    /// Records the snippet behind one ranking index; the snippet counts as
    /// shown in full until `set_is_outline` says otherwise.
    pub fn new(idx: usize, range: Range, fs_file_path: String) -> (r: Self)
        ensures
            r@ == (SnippetReRankData {
                idx,
                range,
                fs_file_path: fs_file_path@,
                is_outline: false,
            }),
    {
        SnippetReRankInformation { idx, range, fs_file_path, is_outline: false }
    }

    /// The index the ranking model was shown.
    pub fn idx(&self) -> (r: usize)
        ensures
            r == self@.idx,
    {
        self.idx
    }

    /// The line range of the snippet behind the index.
    pub fn range(&self) -> (r: &Range)
        ensures
            *r == self@.range,
    {
        &self.range
    }

    /// The file of the snippet behind the index.
    pub fn fs_file_path(&self) -> (r: &str)
        ensures
            r@ == self@.fs_file_path,
    {
        self.fs_file_path.as_str()
    }

    /// Whether only the snippet's outline was shown.
    pub fn is_outline(&self) -> (r: bool)
        ensures
            r == self@.is_outline,
    {
        self.is_outline
    }

    /// Marks the entry as showing only the snippet's outline.
    pub fn set_is_outline(self) -> (r: Self)
        ensures
            r@ == (SnippetReRankData { is_outline: true, ..self@ }),
    {
        let mut s = self;
        s.is_outline = true;
        s
    }
}

} // verus!
