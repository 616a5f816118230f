use vstd::prelude::*;
use vstd::string::*;

verus! {

/// State of the processing graph, as the media runtime reports it.
#[derive(Clone, Copy, Debug, PartialEq, Eq, Structural)]
pub enum PipelineState {
    /// No state is pending (the runtime's placeholder value).
    VoidPending,
    Null,
    Ready,
    Paused,
    Playing,
}

/// The name under which a state is reported to the caller.
pub open spec fn state_name(s: PipelineState) -> Seq<char> {
    match s {
        PipelineState::VoidPending => "VoidPending"@,
        PipelineState::Null => "Null"@,
        PipelineState::Ready => "Ready"@,
        PipelineState::Paused => "Paused"@,
        PipelineState::Playing => "Playing"@,
    }
}

impl PipelineState {
    /// The name of this state, as carried by a `stateChanged` event.
    pub fn name(&self) -> (r: String)
        ensures
            r@ == state_name(*self),
    {
        match self {
            PipelineState::VoidPending => String::from_str("VoidPending"),
            PipelineState::Null => String::from_str("Null"),
            PipelineState::Ready => String::from_str("Ready"),
            PipelineState::Paused => String::from_str("Paused"),
            PipelineState::Playing => String::from_str("Playing"),
        }
    }
}

} // verus!
