//! How a tool invocation fails.

use vstd::prelude::*;

verus! {

/// The ways one tool invocation can fail, as surfaced to the caller.
#[derive(Debug, Clone, Copy, PartialEq, Eq, Structural)]
pub enum ToolError {
    /// The model stream failed or never resolved; the invocation is given
    /// up.
    RetriesExhausted,
    /// The input handed to a tool was not the kind it takes.
    WrongToolInput,
    /// A value could not be serialized or deserialized at the editor
    /// boundary.
    SerdeConversionFailed,
    /// The editor endpoint could not be reached.
    ErrorCommunicatingWithEditor,
}

/// The upstream completion stream closed in failure. What went wrong inside
/// the stream is the stream's own affair; the editing core only acts on the
/// fact.
#[derive(Debug, Clone, Copy, PartialEq, Eq, Structural)]
pub struct StreamFailure;

} // verus!
