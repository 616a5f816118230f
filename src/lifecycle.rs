use vstd::prelude::*;
use vstd::string::*;
use crate::command::{Command, command_target};
use crate::event::{Event, EventView, opt_view};
use crate::state::{PipelineState, state_name};

verus! {

/// Where the controller stands in the life of a graph.
#[derive(Clone, Copy, Debug, PartialEq, Eq, Structural)]
pub enum Phase {
    /// Built, and not yet wired and paused: commands wait.
    Building,
    /// Set up: commands are applied as they come.
    Running,
    /// Torn down: nothing more is accepted.
    Stopped,
}

/// Why a lifecycle step was refused.
#[derive(Clone, Copy, Debug, PartialEq, Eq, Structural)]
pub enum LifecycleError {
    /// Setup was asked for twice, or after the graph left `Null`.
    AlreadySetUp,
    /// A setup result came while no setup was under way.
    NotSettingUp,
    /// The runtime refused the transition to this state during setup.
    TransitionFailed(PipelineState),
}

/// What the worker does with a command handed to the controller.
#[derive(Clone, Copy, Debug, PartialEq, Eq, Structural)]
pub enum CommandStep {
    /// Setup is not complete: the command is kept, and handed back in
    /// order when setup completes.
    Deferred,
    /// Ask the runtime for this state.
    Request(PipelineState),
    /// The graph is stopped: nothing is done.
    Ignored,
}

pub struct LifecycleView {
    pub state: PipelineState,
    pub phase: Phase,
    pub pending: Seq<Command>,
}

/// Drives the graph through its states. It is the only writer of the state
/// it records, which mirrors the runtime's state after each confirmed
/// transition.
pub struct Lifecycle {
    state: PipelineState,
    phase: Phase,
    pending: Vec<Command>,
}

/// A stopped controller records `Null` and keeps no command.
pub open spec fn lifecycle_wf(l: LifecycleView) -> bool {
    l.phase == Phase::Stopped ==> (l.state == PipelineState::Null && l.pending.len() == 0)
}

impl View for Lifecycle {
    type V = LifecycleView;

    closed spec fn view(&self) -> LifecycleView {
        LifecycleView { state: self.state, phase: self.phase, pending: self.pending@ }
    }
}

/// The controller after a command is handed to it.
pub open spec fn after_command(l: LifecycleView, c: Command) -> LifecycleView {
    match l.phase {
        Phase::Building => LifecycleView { pending: l.pending.push(c), ..l },
        _ => l,
    }
}

/// The step that a command gives.
pub open spec fn command_step(l: LifecycleView, c: Command) -> CommandStep {
    match l.phase {
        Phase::Building => CommandStep::Deferred,
        Phase::Running => CommandStep::Request(command_target(c)),
        Phase::Stopped => CommandStep::Ignored,
    }
}

/// The controller after the runtime has answered the request of a command.
pub open spec fn after_applied(l: LifecycleView, c: Command, ok: bool) -> LifecycleView {
    if l.phase == Phase::Running && ok {
        LifecycleView { state: command_target(c), ..l }
    } else {
        l
    }
}

/// The controller once stopped.
pub open spec fn stopped_view() -> LifecycleView {
    LifecycleView { state: PipelineState::Null, phase: Phase::Stopped, pending: Seq::empty() }
}

/// The controller with another recorded state.
pub open spec fn with_state(l: LifecycleView, s: PipelineState) -> LifecycleView {
    LifecycleView { state: s, ..l }
}

/// The error event reporting a refused command.
pub open spec fn refusal_event(c: Command) -> EventView {
    EventView::Error { message: refusal_text(c), stack: refusal_text(c) }
}

/// The text of the error event for a refused command.
pub open spec fn refusal_text(c: Command) -> Seq<char> {
    "failed to change state to "@ + state_name(command_target(c))
}

/// The controller once every command of a sequence has been handed to it
/// and applied by the runtime.
pub open spec fn run_commands(l: LifecycleView, cmds: Seq<Command>) -> LifecycleView
    decreases cmds.len(),
{
    if cmds.len() == 0 {
        l
    } else {
        let pre = run_commands(l, cmds.drop_last());
        after_applied(after_command(pre, cmds.last()), cmds.last(), true)
    }
}

/// With the graph running, commands take effect in submission order, so the
/// last one decides the final state.
pub proof fn lemma_last_command_wins(l: LifecycleView, cmds: Seq<Command>)
    requires
        l.phase == Phase::Running,
        cmds.len() > 0,
    ensures
        run_commands(l, cmds).state == command_target(cmds.last()),
        run_commands(l, cmds).phase == Phase::Running,
    decreases cmds.len(),
{
    lemma_running_stays(l, cmds.drop_last());
}

proof fn lemma_running_stays(l: LifecycleView, cmds: Seq<Command>)
    requires
        l.phase == Phase::Running,
    ensures
        run_commands(l, cmds).phase == Phase::Running,
    decreases cmds.len(),
{
    if cmds.len() > 0 {
        lemma_running_stays(l, cmds.drop_last());
    }
}

impl Lifecycle {
    pub fn new() -> (r: Lifecycle)
        ensures
            r@.state == PipelineState::Null,
            r@.phase == Phase::Building,
            r@.pending == Seq::<Command>::empty(),
            lifecycle_wf(r@),
    {
        Lifecycle { state: PipelineState::Null, phase: Phase::Building, pending: Vec::new() }
    }

    /// The state recorded by the controller.
    pub fn state(&self) -> (r: PipelineState)
        ensures
            r == self@.state,
    {
        self.state
    }

    /// The phase of the controller.
    pub fn phase(&self) -> (r: Phase)
        ensures
            r == self@.phase,
    {
        self.phase
    }

    /// Starts the setup of a freshly built graph: `Null` becomes `Ready`,
    /// the worker wires the graph, then requests the returned state
    /// (`Paused`). Allowed once.
    pub fn setup(&mut self) -> (r: Result<PipelineState, LifecycleError>)
        requires
            lifecycle_wf(old(self)@),
        ensures
            lifecycle_wf(final(self)@),
            (old(self)@.phase == Phase::Building && old(self)@.state == PipelineState::Null)
                <==> (r is Ok),
            (r is Ok) ==> {
                &&& r->Ok_0 == PipelineState::Paused
                &&& final(self)@ == with_state(old(self)@, PipelineState::Ready)
            },
            (r is Err) ==> (r == Err::<PipelineState, LifecycleError>(LifecycleError::AlreadySetUp)
                && final(self)@ == old(self)@),
    {
        if self.phase == Phase::Building && self.state == PipelineState::Null {
            self.state = PipelineState::Ready;
            Ok(PipelineState::Paused)
        } else {
            Err(LifecycleError::AlreadySetUp)
        }
    }

    /// Records the runtime's answer to the setup's request for `Paused`. On
    /// success the graph runs and the commands that arrived meanwhile are
    /// handed back in submission order; a refusal is fatal and stops the
    /// controller.
    pub fn setup_applied(&mut self, ok: bool) -> (r: Result<Vec<Command>, LifecycleError>)
        requires
            lifecycle_wf(old(self)@),
        ensures
            lifecycle_wf(final(self)@),
            !(old(self)@.phase == Phase::Building && old(self)@.state == PipelineState::Ready)
                ==> (r == Err::<Vec<Command>, LifecycleError>(LifecycleError::NotSettingUp)
                && final(self)@ == old(self)@),
            old(self)@.phase == Phase::Building && old(self)@.state == PipelineState::Ready ==> {
                if ok {
                    &&& r is Ok
                    &&& r->Ok_0@ == old(self)@.pending
                    &&& final(self)@ == (LifecycleView {
                        state: PipelineState::Paused,
                        phase: Phase::Running,
                        pending: Seq::empty(),
                    })
                } else {
                    &&& r == Err::<Vec<Command>, LifecycleError>(
                        LifecycleError::TransitionFailed(PipelineState::Paused),
                    )
                    &&& final(self)@ == stopped_view()
                }
            },
    {
        if !(self.phase == Phase::Building && self.state == PipelineState::Ready) {
            return Err(LifecycleError::NotSettingUp);
        }
        let mut queued: Vec<Command> = Vec::new();
        core::mem::swap(&mut queued, &mut self.pending);
        if ok {
            self.state = PipelineState::Paused;
            self.phase = Phase::Running;
            Ok(queued)
        } else {
            self.state = PipelineState::Null;
            self.phase = Phase::Stopped;
            Err(LifecycleError::TransitionFailed(PipelineState::Paused))
        }
    }

    /// Takes a command: kept while setup is under way, turned into a state
    /// request while running, ignored once stopped.
    pub fn on_command(&mut self, c: Command) -> (r: CommandStep)
        requires
            lifecycle_wf(old(self)@),
        ensures
            lifecycle_wf(final(self)@),
            r == command_step(old(self)@, c),
            final(self)@ == after_command(old(self)@, c),
    {
        match self.phase {
            Phase::Building => {
                self.pending.push(c);
                CommandStep::Deferred
            },
            Phase::Running => CommandStep::Request(c.target()),
            Phase::Stopped => CommandStep::Ignored,
        }
    }

    /// Records the runtime's answer to a command's request. A refusal is not
    /// fatal: it is reported as an error event and the state is kept.
    pub fn command_applied(&mut self, c: Command, ok: bool) -> (r: Option<Event>)
        requires
            lifecycle_wf(old(self)@),
        ensures
            lifecycle_wf(final(self)@),
            final(self)@ == after_applied(old(self)@, c, ok),
            (old(self)@.phase == Phase::Running && !ok) ==> opt_view(r) == Some(refusal_event(c)),
            !(old(self)@.phase == Phase::Running && !ok) ==> (r is None),
    {
        if self.phase != Phase::Running {
            return None;
        }
        if ok {
            self.state = c.target();
            None
        } else {
            let mut text = String::from_str("failed to change state to ");
            let name = c.target().name();
            text.append(name.as_str());
            Some(Event::Error { message: text.clone(), stack: text })
        }
    }

    /// Stops the controller. Returns whether the worker must ask the runtime
    /// for `Null`: only the first call does; a second is a no-op.
    pub fn stop(&mut self) -> (r: bool)
        requires
            lifecycle_wf(old(self)@),
        ensures
            lifecycle_wf(final(self)@),
            r == (old(self)@.phase != Phase::Stopped),
            final(self)@ == stopped_view(),
            !r ==> final(self)@ == old(self)@,
    {
        if self.phase == Phase::Stopped {
            assert(self@.pending =~= Seq::<Command>::empty());
            return false;
        }
        self.state = PipelineState::Null;
        self.pending = Vec::new();
        self.phase = Phase::Stopped;
        true
    }
}

} // verus!
