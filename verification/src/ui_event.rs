//! Events sent to the UI layer while an edit streams in.
//!
//! Every message names the request that drove the edit, the symbol being
//! edited, the edit's own id, the absolute line range, and the file — so the
//! UI can place each fragment without further context.

use vstd::prelude::*;

use crate::identifier::{SymbolIdentifier, SymbolIdentifierData};
use crate::text_document::Range;

verus! {

/// What a `UIEventWithID` holds, as the contracts see it.
#[verifier::ext_equal]
pub enum UIEventData {
    StartEditStreaming {
        request_id: Seq<char>,
        symbol_identifier: SymbolIdentifierData,
        edit_request_id: Seq<char>,
        range: Range,
        fs_file_path: Seq<char>,
    },
    DeltaEditStreaming {
        request_id: Seq<char>,
        symbol_identifier: SymbolIdentifierData,
        delta: Seq<char>,
        edit_request_id: Seq<char>,
        range: Range,
        fs_file_path: Seq<char>,
    },
    EndEditStreaming {
        request_id: Seq<char>,
        symbol_identifier: SymbolIdentifierData,
        edit_request_id: Seq<char>,
        range: Range,
        fs_file_path: Seq<char>,
    },
}

/// One message to the UI layer, tagged with the ids that place it.
#[derive(Debug, PartialEq)]
pub enum UIEventWithID {
    /// An edit at the range has begun streaming.
    StartEditStreaming {
        request_id: String,
        symbol_identifier: SymbolIdentifier,
        edit_request_id: String,
        range: Range,
        fs_file_path: String,
    },
    /// One fragment of the streamed edit's content.
    DeltaEditStreaming {
        request_id: String,
        symbol_identifier: SymbolIdentifier,
        delta: String,
        edit_request_id: String,
        range: Range,
        fs_file_path: String,
    },
    /// The edit at the range has finished streaming.
    EndEditStreaming {
        request_id: String,
        symbol_identifier: SymbolIdentifier,
        edit_request_id: String,
        range: Range,
        fs_file_path: String,
    },
}

impl View for UIEventWithID {
    type V = UIEventData;

    open spec fn view(&self) -> UIEventData {
        match self {
            UIEventWithID::StartEditStreaming {
                request_id,
                symbol_identifier,
                edit_request_id,
                range,
                fs_file_path,
            } => UIEventData::StartEditStreaming {
                request_id: request_id@,
                symbol_identifier: symbol_identifier@,
                edit_request_id: edit_request_id@,
                range: *range,
                fs_file_path: fs_file_path@,
            },
            UIEventWithID::DeltaEditStreaming {
                request_id,
                symbol_identifier,
                delta,
                edit_request_id,
                range,
                fs_file_path,
            } => UIEventData::DeltaEditStreaming {
                request_id: request_id@,
                symbol_identifier: symbol_identifier@,
                delta: delta@,
                edit_request_id: edit_request_id@,
                range: *range,
                fs_file_path: fs_file_path@,
            },
            UIEventWithID::EndEditStreaming {
                request_id,
                symbol_identifier,
                edit_request_id,
                range,
                fs_file_path,
            } => UIEventData::EndEditStreaming {
                request_id: request_id@,
                symbol_identifier: symbol_identifier@,
                edit_request_id: edit_request_id@,
                range: *range,
                fs_file_path: fs_file_path@,
            },
        }
    }
}

impl DeepView for UIEventWithID {
    type V = UIEventData;

    open spec fn deep_view(&self) -> UIEventData {
        self@
    }
}

impl UIEventWithID {
    /// The message that an edit at `range` has begun streaming.
    pub fn start_edit_streaming(
        root_request_id: String,
        symbol_identifier: SymbolIdentifier,
        edit_request_id: String,
        range: Range,
        fs_file_path: String,
    ) -> (r: Self)
        ensures
            r@ == (UIEventData::StartEditStreaming {
                request_id: root_request_id@,
                symbol_identifier: symbol_identifier@,
                edit_request_id: edit_request_id@,
                range,
                fs_file_path: fs_file_path@,
            }),
    {
        UIEventWithID::StartEditStreaming {
            request_id: root_request_id,
            symbol_identifier,
            edit_request_id,
            range,
            fs_file_path,
        }
    }

    /// One fragment of a streamed edit's content.
    pub fn delta_edit_streaming(
        root_request_id: String,
        symbol_identifier: SymbolIdentifier,
        delta: String,
        edit_request_id: String,
        range: Range,
        fs_file_path: String,
    ) -> (r: Self)
        ensures
            r@ == (UIEventData::DeltaEditStreaming {
                request_id: root_request_id@,
                symbol_identifier: symbol_identifier@,
                delta: delta@,
                edit_request_id: edit_request_id@,
                range,
                fs_file_path: fs_file_path@,
            }),
    {
        UIEventWithID::DeltaEditStreaming {
            request_id: root_request_id,
            symbol_identifier,
            delta,
            edit_request_id,
            range,
            fs_file_path,
        }
    }

    /// The message that the edit at `range` has finished streaming.
    pub fn end_edit_streaming(
        root_request_id: String,
        symbol_identifier: SymbolIdentifier,
        edit_request_id: String,
        range: Range,
        fs_file_path: String,
    ) -> (r: Self)
        ensures
            r@ == (UIEventData::EndEditStreaming {
                request_id: root_request_id@,
                symbol_identifier: symbol_identifier@,
                edit_request_id: edit_request_id@,
                range,
                fs_file_path: fs_file_path@,
            }),
    {
        UIEventWithID::EndEditStreaming {
            request_id: root_request_id,
            symbol_identifier,
            edit_request_id,
            range,
            fs_file_path,
        }
    }
}

} // verus!
