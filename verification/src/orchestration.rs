//! Driving one model-backed edit invocation.
//!
//! One invocation fans in three sources: the model's token deltas, the
//! parser's edit events, and the future that resolves to the model's final
//! text or a failure. The fan-in select itself is asynchronous plumbing and
//! lives outside the library; the decisions it takes are all here, as a
//! state machine from events to actions:
//!
//! - a model delta is fed to the parser (`on_model_delta`);
//! - each parser event becomes the UI messages it calls for
//!   (`next_ui_messages`): a started edit opens with a "start" message and a
//!   synthetic opening code fence, a fragment is forwarded verbatim, and a
//!   finished edit sends the closing fence and the "end" message;
//! - the terminal result decides the invocation's outcome (`finish`), the
//!   instant it arrives and regardless of any event still pending.

use vstd::prelude::*;

use crate::errors::{StreamFailure, ToolError};
use crate::identifier::{SymbolIdentifier, SymbolIdentifierData};
use crate::search_and_replace::{
    feed, initial_model, lemma_feed_extends_events, lemma_feed_preserves_inv, AccumulatorModel,
    EditDelta, EditEvent, SearchAndReplaceAccumulator, SearchAndReplaceEditingResponse,
};
use crate::text_document::Range;
use crate::text_lines::lines_of;
use crate::ui_event::{UIEventData, UIEventWithID};

verus! {

/// What an `OrchestrationLoop` holds, as the contracts see it.
#[verifier::ext_equal]
pub struct OrchestrationData {
    /// The streaming parser's state.
    pub accumulator: AccumulatorModel,
    /// How many parser events have already been turned into UI messages.
    pub forwarded: nat,
    /// The id of the request that drove this invocation.
    pub root_request_id: Seq<char>,
    /// The symbol being edited.
    pub symbol_identifier: SymbolIdentifierData,
    /// The id of this edit within the request.
    pub edit_request_id: Seq<char>,
    /// The file being edited.
    pub fs_file_path: Seq<char>,
}

/// The UI message carrying one content fragment for the edit at `range`.
pub open spec fn delta_message(d: OrchestrationData, content: Seq<char>, range: Range) -> UIEventData {
    UIEventData::DeltaEditStreaming {
        request_id: d.root_request_id,
        symbol_identifier: d.symbol_identifier,
        delta: content,
        edit_request_id: d.edit_request_id,
        range,
        fs_file_path: d.fs_file_path,
    }
}

/// The UI messages one parser event calls for. A started edit opens with a
/// "start" message followed by a synthetic opening code fence — the marker
/// the downstream renderer needs to recognize a code block; a fragment is
/// forwarded verbatim; a finished edit sends the closing fence and then the
/// "end" message.
pub open spec fn ui_messages_of_event(d: OrchestrationData, e: EditEvent) -> Seq<UIEventData> {
    match e {
        EditEvent::Started(range) => seq![
            UIEventData::StartEditStreaming {
                request_id: d.root_request_id,
                symbol_identifier: d.symbol_identifier,
                edit_request_id: d.edit_request_id,
                range,
                fs_file_path: d.fs_file_path,
            },
            delta_message(d, "```\n"@, range),
        ],
        EditEvent::Delta(range, content) => seq![delta_message(d, content, range)],
        EditEvent::Ended(range) => seq![
            delta_message(d, "\n```"@, range),
            UIEventData::EndEditStreaming {
                request_id: d.root_request_id,
                symbol_identifier: d.symbol_identifier,
                edit_request_id: d.edit_request_id,
                range,
                fs_file_path: d.fs_file_path,
            },
        ],
    }
}

/// The state machine of one edit invocation: the streaming parser, a cursor
/// over its event log, and the ids every UI message carries.
pub struct OrchestrationLoop {
    accumulator: SearchAndReplaceAccumulator,
    forwarded: usize,
    root_request_id: String,
    symbol_identifier: SymbolIdentifier,
    edit_request_id: String,
    fs_file_path: String,
}

impl View for OrchestrationLoop {
    type V = OrchestrationData;

    closed spec fn view(&self) -> OrchestrationData {
        OrchestrationData {
            accumulator: self.accumulator@,
            forwarded: self.forwarded as nat,
            root_request_id: self.root_request_id@,
            symbol_identifier: self.symbol_identifier@,
            edit_request_id: self.edit_request_id@,
            fs_file_path: self.fs_file_path@,
        }
    }
}

impl OrchestrationLoop {
    /// The lines of the text the invocation started over.
    pub closed spec fn original(&self) -> Seq<Seq<char>> {
        self.accumulator.original()
    }

    /// The parser is well formed and the cursor has not run past its event
    /// log.
    pub open spec fn wf(&self) -> bool {
        &&& crate::search_and_replace::accumulator_inv(self@.accumulator, self.original())
        &&& self@.forwarded <= self@.accumulator.events.len()
    }

    /// Starts one invocation over the text being edited.
    pub fn new(
        code_to_edit: String,
        start_line: usize,
        root_request_id: String,
        symbol_identifier: SymbolIdentifier,
        edit_request_id: String,
        fs_file_path: String,
    ) -> (r: Self)
        ensures
            r@.accumulator == initial_model(code_to_edit@, start_line as nat),
            r@.forwarded == 0,
            r@.root_request_id == root_request_id@,
            r@.symbol_identifier == symbol_identifier@,
            r@.edit_request_id == edit_request_id@,
            r@.fs_file_path == fs_file_path@,
            r.original() == lines_of(code_to_edit@),
            r.wf(),
    {
        OrchestrationLoop {
            accumulator: SearchAndReplaceAccumulator::new(code_to_edit, start_line),
            forwarded: 0,
            root_request_id,
            symbol_identifier,
            edit_request_id,
            fs_file_path,
        }
    }

    /// The streaming parser, for inspection.
    pub fn accumulator(&self) -> (r: &SearchAndReplaceAccumulator)
        ensures
            r@ == self@.accumulator,
    {
        &self.accumulator
    }

    /// Feeds one model delta to the parser; any events it emits queue up
    /// behind the cursor.
    pub fn on_model_delta(&mut self, delta: String)
        requires
            old(self).wf(),
        ensures
            final(self)@ == (OrchestrationData {
                accumulator: feed(old(self)@.accumulator, delta@),
                ..old(self)@
            }),
            final(self).original() == old(self).original(),
            final(self).wf(),
    {
        proof {
            lemma_feed_preserves_inv(self@.accumulator, self.original(), delta@);
            lemma_feed_extends_events(self@.accumulator, delta@);
        }
        self.accumulator.add_delta(delta);
    }

    /// Builds the UI messages one parser event calls for.
    fn messages_for_event(&self, ev: &EditDelta) -> (r: Vec<UIEventWithID>)
        ensures
            r.deep_view() == ui_messages_of_event(self@, ev@),
    {
        let mut out: Vec<UIEventWithID> = Vec::new();
        match ev {
            EditDelta::EditStarted(range) => {
                out.push(
                    UIEventWithID::start_edit_streaming(
                        self.root_request_id.clone(),
                        self.symbol_identifier.duplicate(),
                        self.edit_request_id.clone(),
                        *range,
                        self.fs_file_path.clone(),
                    ),
                );
                out.push(
                    UIEventWithID::delta_edit_streaming(
                        self.root_request_id.clone(),
                        self.symbol_identifier.duplicate(),
                        "```\n".to_owned(),
                        self.edit_request_id.clone(),
                        *range,
                        self.fs_file_path.clone(),
                    ),
                );
            },
            EditDelta::EditDelta((range, content)) => {
                out.push(
                    UIEventWithID::delta_edit_streaming(
                        self.root_request_id.clone(),
                        self.symbol_identifier.duplicate(),
                        content.clone(),
                        self.edit_request_id.clone(),
                        *range,
                        self.fs_file_path.clone(),
                    ),
                );
            },
            EditDelta::EditEnd(range) => {
                out.push(
                    UIEventWithID::delta_edit_streaming(
                        self.root_request_id.clone(),
                        self.symbol_identifier.duplicate(),
                        "\n```".to_owned(),
                        self.edit_request_id.clone(),
                        *range,
                        self.fs_file_path.clone(),
                    ),
                );
                out.push(
                    UIEventWithID::end_edit_streaming(
                        self.root_request_id.clone(),
                        self.symbol_identifier.duplicate(),
                        self.edit_request_id.clone(),
                        *range,
                        self.fs_file_path.clone(),
                    ),
                );
            },
        }
        proof {
            assert(out.deep_view() =~= ui_messages_of_event(self@, ev@));
        }
        out
    }

    /// Turns the next pending parser event into the UI messages it calls
    /// for, advancing the cursor; nothing is pending when the cursor has
    /// caught up with the event log.
    pub fn next_ui_messages(&mut self) -> (r: Option<Vec<UIEventWithID>>)
        requires
            old(self).wf(),
        ensures
            final(self).wf(),
            final(self).original() == old(self).original(),
            final(self)@.accumulator == old(self)@.accumulator,
            final(self)@.root_request_id == old(self)@.root_request_id,
            final(self)@.symbol_identifier == old(self)@.symbol_identifier,
            final(self)@.edit_request_id == old(self)@.edit_request_id,
            final(self)@.fs_file_path == old(self)@.fs_file_path,
            old(self)@.forwarded == old(self)@.accumulator.events.len() ==> r is None
                && final(self)@ == old(self)@,
            old(self)@.forwarded < old(self)@.accumulator.events.len() ==> ({
                &&& final(self)@.forwarded == old(self)@.forwarded + 1
                &&& r is Some
                &&& r->Some_0.deep_view() == ui_messages_of_event(
                    old(self)@,
                    old(self)@.accumulator.events[old(self)@.forwarded as int],
                )
            }),
    {
        let pending_count = self.accumulator.events().len();
        if self.forwarded >= pending_count {
            return None;
        }
        let events = self.accumulator.events();
        let ev = &events[self.forwarded];
        let out = self.messages_for_event(ev);
        self.forwarded = self.forwarded + 1;
        Some(out)
    }

    /// Resolves the invocation from the stream's terminal result, the
    /// instant it arrives: the complete answer on success, and the
    /// retries-exhausted failure on anything else — whatever state the
    /// parser is in and whatever events are still pending.
    pub fn finish(&self, stream_result: Option<Result<String, StreamFailure>>) -> (r: Result<
        SearchAndReplaceEditingResponse,
        ToolError,
    >)
        ensures
            match stream_result {
                Some(Ok(response)) => r is Ok && r->Ok_0@ == response@,
                _ => r == Err::<SearchAndReplaceEditingResponse, ToolError>(
                    ToolError::RetriesExhausted,
                ),
            },
    {
        match stream_result {
            Some(Ok(response)) => Ok(SearchAndReplaceEditingResponse::new(response)),
            _ => Err(ToolError::RetriesExhausted),
        }
    }
}

} // verus!
