//! The symbols a ranking model judged important.
//!
//! A ranking pass over the codebase answers with two lists: the symbols
//! worth looking at, each with the model's reasoning, and the symbols to
//! act on, in order, each with the steps to take.

use vstd::prelude::*;

verus! {

/// What a `CodeSymbolWithThinking` holds, as the contracts see it.
pub struct CodeSymbolWithThinkingData {
    pub code_symbol: Seq<char>,
    pub thinking: Seq<char>,
    pub file_path: Seq<char>,
}

/// One symbol judged important, with the model's reasoning for it.
#[derive(Debug)]
pub struct CodeSymbolWithThinking {
    code_symbol: String,
    thinking: String,
    file_path: String,
}

impl View for CodeSymbolWithThinking {
    type V = CodeSymbolWithThinkingData;

    closed spec fn view(&self) -> CodeSymbolWithThinkingData {
        CodeSymbolWithThinkingData {
            code_symbol: self.code_symbol@,
            thinking: self.thinking@,
            file_path: self.file_path@,
        }
    }
}

impl DeepView for CodeSymbolWithThinking {
    type V = CodeSymbolWithThinkingData;

    open spec fn deep_view(&self) -> CodeSymbolWithThinkingData {
        self@
    }
}

impl CodeSymbolWithThinking {
    pub fn new(code_symbol: String, thinking: String, file_path: String) -> (r: Self)
        ensures
            r@ == (CodeSymbolWithThinkingData {
                code_symbol: code_symbol@,
                thinking: thinking@,
                file_path: file_path@,
            }),
    {
        CodeSymbolWithThinking { code_symbol, thinking, file_path }
    }

    /// The symbol's name.
    pub fn code_symbol(&self) -> (r: &str)
        ensures
            r@ == self@.code_symbol,
    {
        self.code_symbol.as_str()
    }

    /// Why the model considers the symbol important.
    pub fn thinking(&self) -> (r: &str)
        ensures
            r@ == self@.thinking,
    {
        self.thinking.as_str()
    }

    /// The file the symbol lives in.
    pub fn file_path(&self) -> (r: &str)
        ensures
            r@ == self@.file_path,
    {
        self.file_path.as_str()
    }
}

/// What a `CodeSymbolWithSteps` holds, as the contracts see it.
pub struct CodeSymbolWithStepsData {
    pub code_symbol: Seq<char>,
    pub steps: Seq<Seq<char>>,
    pub is_new: bool,
    pub file_path: Seq<char>,
}

/// One symbol to act on: the steps to take, and whether the symbol is yet
/// to be created.
#[derive(Debug)]
pub struct CodeSymbolWithSteps {
    code_symbol: String,
    steps: Vec<String>,
    is_new: bool,
    file_path: String,
}

impl View for CodeSymbolWithSteps {
    type V = CodeSymbolWithStepsData;

    closed spec fn view(&self) -> CodeSymbolWithStepsData {
        CodeSymbolWithStepsData {
            code_symbol: self.code_symbol@,
            steps: self.steps.deep_view(),
            is_new: self.is_new,
            file_path: self.file_path@,
        }
    }
}

impl DeepView for CodeSymbolWithSteps {
    type V = CodeSymbolWithStepsData;

    open spec fn deep_view(&self) -> CodeSymbolWithStepsData {
        self@
    }
}

impl CodeSymbolWithSteps {
    pub fn new(code_symbol: String, steps: Vec<String>, is_new: bool, file_path: String) -> (r:
        Self)
        ensures
            r@ == (CodeSymbolWithStepsData {
                code_symbol: code_symbol@,
                steps: steps.deep_view(),
                is_new,
                file_path: file_path@,
            }),
    {
        CodeSymbolWithSteps { code_symbol, steps, is_new, file_path }
    }

    /// The symbol's name.
    pub fn code_symbol(&self) -> (r: &str)
        ensures
            r@ == self@.code_symbol,
    {
        self.code_symbol.as_str()
    }

    /// The steps to take on the symbol, in order.
    pub fn steps(&self) -> (r: &[String])
        ensures
            r.deep_view() == self@.steps,
    {
        self.steps.as_slice()
    }

    /// Whether the symbol is yet to be created.
    pub fn is_new(&self) -> (r: bool)
        ensures
            r == self@.is_new,
    {
        self.is_new
    }

    /// The file the symbol lives in.
    pub fn file_path(&self) -> (r: &str)
        ensures
            r@ == self@.file_path,
    {
        self.file_path.as_str()
    }
}

/// What a `CodeSymbolImportantResponse` holds, as the contracts see it.
pub struct CodeSymbolImportantResponseData {
    pub symbols: Seq<CodeSymbolWithThinkingData>,
    pub ordered_symbols: Seq<CodeSymbolWithStepsData>,
}

/// A ranking model's full answer: the symbols judged important, and the
/// symbols to act on, in order.
#[derive(Debug)]
pub struct CodeSymbolImportantResponse {
    symbols: Vec<CodeSymbolWithThinking>,
    ordered_symbols: Vec<CodeSymbolWithSteps>,
}

impl View for CodeSymbolImportantResponse {
    type V = CodeSymbolImportantResponseData;

    closed spec fn view(&self) -> CodeSymbolImportantResponseData {
        CodeSymbolImportantResponseData {
            symbols: self.symbols.deep_view(),
            ordered_symbols: self.ordered_symbols.deep_view(),
        }
    }
}

impl CodeSymbolImportantResponse {
    pub fn new(
        symbols: Vec<CodeSymbolWithThinking>,
        ordered_symbols: Vec<CodeSymbolWithSteps>,
    ) -> (r: Self)
        ensures
            r@ == (CodeSymbolImportantResponseData {
                symbols: symbols.deep_view(),
                ordered_symbols: ordered_symbols.deep_view(),
            }),
    {
        CodeSymbolImportantResponse { symbols, ordered_symbols }
    }

    /// The symbols judged important.
    pub fn symbols(&self) -> (r: &[CodeSymbolWithThinking])
        ensures
            r.deep_view() == self@.symbols,
    {
        self.symbols.as_slice()
    }

    /// Takes the symbols judged important out of the answer.
    pub fn remove_symbols(self) -> (r: Vec<CodeSymbolWithThinking>)
        ensures
            r.deep_view() == self@.symbols,
    {
        let CodeSymbolImportantResponse { symbols, ordered_symbols } = self;
        symbols
    }

    /// The symbols to act on, in order.
    pub fn ordered_symbols(&self) -> (r: &[CodeSymbolWithSteps])
        ensures
            r.deep_view() == self@.ordered_symbols,
    {
        self.ordered_symbols.as_slice()
    }
}

} // verus!
