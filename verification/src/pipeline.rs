//! The record-stream pipeline, as a state machine.
//!
//! The stream driver alternates outside work (pulling a record from the
//! source, pushing it to the sink) with decisions. The decisions live here,
//! verified: given the current state and the event the collaborators
//! reported, `pipeline_step` says what state comes next and what to do.
//! Records flow strictly one-in-one-out; the first unparseable record or
//! I/O failure aborts the whole run — there is no partial-success mode.

use vstd::prelude::*;

verus! {

/// Where a run stands.
#[derive(Clone, Copy, Debug, PartialEq, Eq, Structural)]
pub enum PipelineState {
    /// No record pulled yet.
    Idle,
    /// Records are being pulled, adjusted and written one at a time.
    Streaming,
    /// The source reported end of stream; the run succeeded.
    Done,
    /// A record could not be parsed or a collaborator failed; the run is
    /// aborted.
    Failed,
}

/// What the source or sink reported while streaming.
#[derive(Clone, Copy, Debug, PartialEq, Eq, Structural)]
pub enum StreamEvent {
    /// The source delivered one well-formed record.
    RecordRead,
    /// The source is exhausted.
    EndOfStream,
    /// The source could not parse the next record.
    RecordUnparseable,
    /// The sink failed to write the adjusted record.
    SinkWriteFailed,
}

/// What the driver must do next.
#[derive(Clone, Copy, Debug, PartialEq, Eq, Structural)]
pub enum PipelineAction {
    /// Adjust the record just read and write it to the sink before pulling
    /// the next one.
    AdjustAndWrite,
    /// Close the sink; the run is complete.
    FinishStream,
    /// Stop immediately and report the failure.
    AbortRun,
}

impl PipelineState {
    /// A run that has reached a terminal state pulls no further record.
    pub open spec fn is_terminal(self) -> bool {
        self == PipelineState::Done || self == PipelineState::Failed
    }
}

/// The transition the state machine takes for one event: a well-formed
/// record keeps the run streaming, end of stream completes it, and any
/// parse or write failure aborts it.
pub fn pipeline_step(state: PipelineState, event: StreamEvent) -> (r: (
    PipelineState,
    PipelineAction,
))
    requires
        !state.is_terminal(),
    ensures
        event == StreamEvent::RecordRead ==> r == (
            PipelineState::Streaming,
            PipelineAction::AdjustAndWrite,
        ),
        event == StreamEvent::EndOfStream ==> r == (
            PipelineState::Done,
            PipelineAction::FinishStream,
        ),
        event == StreamEvent::RecordUnparseable || event == StreamEvent::SinkWriteFailed ==> r == (
            PipelineState::Failed,
            PipelineAction::AbortRun,
        ),
        r.0.is_terminal() <==> event != StreamEvent::RecordRead,
{
    match event {
        StreamEvent::RecordRead => (PipelineState::Streaming, PipelineAction::AdjustAndWrite),
        StreamEvent::EndOfStream => (PipelineState::Done, PipelineAction::FinishStream),
        StreamEvent::RecordUnparseable => (PipelineState::Failed, PipelineAction::AbortRun),
        StreamEvent::SinkWriteFailed => (PipelineState::Failed, PipelineAction::AbortRun),
    }
}

} // verus!
