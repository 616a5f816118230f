use vstd::prelude::*;
use crate::state::PipelineState;

verus! {

/// A request from the controller to change the state of the graph.
#[derive(Clone, Copy, Debug, PartialEq, Eq, Structural)]
pub enum Command {
    Pause,
    Resume,
}

/// The state that a command asks the graph to reach.
pub open spec fn command_target(c: Command) -> PipelineState {
    match c {
        Command::Pause => PipelineState::Paused,
        Command::Resume => PipelineState::Playing,
    }
}

impl Command {
    /// The state to request from the runtime for this command.
    pub fn target(&self) -> (r: PipelineState)
        ensures
            r == command_target(*self),
    {
        match self {
            Command::Pause => PipelineState::Paused,
            Command::Resume => PipelineState::Playing,
        }
    }
}

} // verus!
