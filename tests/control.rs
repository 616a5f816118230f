use futures::channel::mpsc;
use streamer::channel::{poll_event, received, submit_command, submit_outcome, SubmitError, CHANNEL_CAPACITY};
use streamer::command::Command;
use streamer::event::Event;
use streamer::lifecycle::{CommandStep, Lifecycle, LifecycleError, Phase};
use streamer::state::PipelineState;

fn running() -> Lifecycle {
    let mut l = Lifecycle::new();
    assert_eq!(l.setup(), Ok(PipelineState::Paused));
    assert_eq!(l.setup_applied(true), Ok(Vec::new()));
    l
}

#[test]
fn poll_without_pending_event_returns_none() {
    let (_tx, mut rx) = mpsc::channel::<Event>(CHANNEL_CAPACITY);
    assert_eq!(poll_event(&mut rx), None);
}

#[test]
fn poll_returns_events_in_order() {
    let (mut tx, mut rx) = mpsc::channel::<Event>(CHANNEL_CAPACITY);
    tx.try_send(Event::StateChanged { state: PipelineState::Paused }).unwrap();
    tx.try_send(Event::Eos {}).unwrap();
    assert_eq!(poll_event(&mut rx), Some(Event::StateChanged { state: PipelineState::Paused }));
    assert_eq!(poll_event(&mut rx), Some(Event::Eos {}));
    assert_eq!(poll_event(&mut rx), None);
}

#[test]
fn poll_after_worker_is_gone_returns_none() {
    let (tx, mut rx) = mpsc::channel::<Event>(CHANNEL_CAPACITY);
    drop(tx);
    assert_eq!(poll_event(&mut rx), None);
}

#[test]
fn received_maps_outcomes() {
    assert_eq!(received::<u32>(Ok(7)), Some(7));
    assert_eq!(received::<u32>(Err(mpsc::TryRecvError::Empty)), None);
    assert_eq!(received::<u32>(Err(mpsc::TryRecvError::Closed)), None);
}

#[test]
fn submitted_commands_arrive_in_order() {
    let (mut tx, mut rx) = mpsc::channel::<Command>(CHANNEL_CAPACITY);
    assert_eq!(submit_command(&mut tx, Command::Pause), Ok(()));
    assert_eq!(submit_command(&mut tx, Command::Resume), Ok(()));
    assert_eq!(rx.try_recv().ok(), Some(Command::Pause));
    assert_eq!(rx.try_recv().ok(), Some(Command::Resume));
}

#[test]
fn submit_to_full_channel_fails() {
    let (mut tx, _rx) = mpsc::channel::<Command>(0);
    assert_eq!(submit_command(&mut tx, Command::Pause), Ok(()));
    let err = submit_command(&mut tx, Command::Resume).unwrap_err();
    assert_eq!(err, SubmitError::Full);
    assert_eq!(err.message(), "send failed because channel is full");
}

#[test]
fn submit_to_closed_channel_fails() {
    let (mut tx, rx) = mpsc::channel::<Command>(CHANNEL_CAPACITY);
    drop(rx);
    let err = submit_command(&mut tx, Command::Pause).unwrap_err();
    assert_eq!(err, SubmitError::Closed);
    assert_eq!(err.message(), "send failed because receiver is gone");
}

#[test]
fn setup_moves_through_ready_to_paused() {
    let mut l = Lifecycle::new();
    assert_eq!(l.state(), PipelineState::Null);
    assert_eq!(l.phase(), Phase::Building);
    assert_eq!(l.setup(), Ok(PipelineState::Paused));
    assert_eq!(l.state(), PipelineState::Ready);
    assert_eq!(l.setup_applied(true), Ok(Vec::new()));
    assert_eq!(l.state(), PipelineState::Paused);
    assert_eq!(l.phase(), Phase::Running);
}

#[test]
fn setup_is_allowed_once() {
    let mut l = Lifecycle::new();
    assert_eq!(l.setup(), Ok(PipelineState::Paused));
    assert_eq!(l.setup(), Err(LifecycleError::AlreadySetUp));
    assert_eq!(l.setup_applied(true), Ok(Vec::new()));
    assert_eq!(l.setup(), Err(LifecycleError::AlreadySetUp));
    assert_eq!(l.setup_applied(true), Err(LifecycleError::NotSettingUp));
}

#[test]
fn failed_setup_is_fatal() {
    let mut l = Lifecycle::new();
    l.on_command(Command::Resume);
    l.setup().unwrap();
    assert_eq!(l.setup_applied(false), Err(LifecycleError::TransitionFailed(PipelineState::Paused)));
    assert_eq!(l.state(), PipelineState::Null);
    assert_eq!(l.phase(), Phase::Stopped);
    assert_eq!(l.on_command(Command::Resume), CommandStep::Ignored);
}

#[test]
fn pause_before_setup_is_kept_and_applied_after() {
    let mut l = Lifecycle::new();
    assert_eq!(l.on_command(Command::Pause), CommandStep::Deferred);
    assert_eq!(l.setup(), Ok(PipelineState::Paused));
    assert_eq!(l.on_command(Command::Resume), CommandStep::Deferred);
    let queued = l.setup_applied(true).unwrap();
    assert_eq!(queued, vec![Command::Pause, Command::Resume]);
    for c in queued {
        assert_eq!(l.on_command(c), CommandStep::Request(c.target()));
        assert_eq!(l.command_applied(c, true), None);
    }
    assert_eq!(l.state(), PipelineState::Playing);
}

#[test]
fn pause_then_resume_ends_playing() {
    let mut l = running();
    assert_eq!(l.on_command(Command::Resume), CommandStep::Request(PipelineState::Playing));
    assert_eq!(l.command_applied(Command::Resume, true), None);
    assert_eq!(l.state(), PipelineState::Playing);
    for c in [Command::Pause, Command::Resume] {
        assert_eq!(l.on_command(c), CommandStep::Request(c.target()));
    }
    for c in [Command::Pause, Command::Resume] {
        assert_eq!(l.command_applied(c, true), None);
    }
    assert_eq!(l.state(), PipelineState::Playing);
}

#[test]
fn redundant_commands_are_accepted() {
    let mut l = running();
    assert_eq!(l.on_command(Command::Pause), CommandStep::Request(PipelineState::Paused));
    assert_eq!(l.command_applied(Command::Pause, true), None);
    assert_eq!(l.state(), PipelineState::Paused);
}

#[test]
fn refused_command_reports_error_and_keeps_running() {
    let mut l = running();
    let e = l.command_applied(Command::Resume, false);
    let text = "failed to change state to Playing".to_string();
    assert_eq!(e, Some(Event::Error { message: text.clone(), stack: text }));
    assert_eq!(l.state(), PipelineState::Paused);
    assert_eq!(l.phase(), Phase::Running);
    assert_eq!(l.on_command(Command::Resume), CommandStep::Request(PipelineState::Playing));
}

#[test]
fn stop_is_idempotent() {
    let mut l = running();
    assert!(l.stop());
    assert_eq!(l.state(), PipelineState::Null);
    assert_eq!(l.phase(), Phase::Stopped);
    assert!(!l.stop());
    assert_eq!(l.state(), PipelineState::Null);
    assert_eq!(l.on_command(Command::Resume), CommandStep::Ignored);
    assert_eq!(l.command_applied(Command::Resume, true), None);
    assert_eq!(l.state(), PipelineState::Null);
}

#[test]
fn submit_outcomes() {
    assert_eq!(submit_outcome(true, false), Ok(()));
    assert_eq!(submit_outcome(true, true), Ok(()));
    assert_eq!(submit_outcome(false, true), Err(SubmitError::Full));
    assert_eq!(submit_outcome(false, false), Err(SubmitError::Closed));
}
