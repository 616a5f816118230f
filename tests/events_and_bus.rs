use futures::channel::mpsc;
use streamer::bus::{pump_all, BusMessage, BusPump, PumpStep};
use streamer::command::Command;
use streamer::event::Event;
use streamer::state::PipelineState;

fn pairs(v: &[(&str, &str)]) -> Vec<(String, String)> {
    v.iter().map(|(a, b)| (a.to_string(), b.to_string())).collect()
}

fn error_msg(description: &str, debug: Option<&str>) -> BusMessage {
    BusMessage::Error { description: description.to_string(), debug: debug.map(|d| d.to_string()) }
}

fn top_level_change(old: PipelineState, current: PipelineState) -> BusMessage {
    BusMessage::StateChanged { from_pipeline: true, old, current }
}

#[test]
fn state_names_match_runtime_names() {
    assert_eq!(PipelineState::Null.name(), "Null");
    assert_eq!(PipelineState::Ready.name(), "Ready");
    assert_eq!(PipelineState::Paused.name(), "Paused");
    assert_eq!(PipelineState::Playing.name(), "Playing");
    assert_eq!(PipelineState::VoidPending.name(), "VoidPending");
}

#[test]
fn command_targets() {
    assert_eq!(Command::Pause.target(), PipelineState::Paused);
    assert_eq!(Command::Resume.target(), PipelineState::Playing);
}

#[test]
fn error_event_wire_form() {
    let e = Event::Error { message: "boom".to_string(), stack: "at x".to_string() };
    assert_eq!(e.name(), "error");
    assert_eq!(e.wire_fields(), pairs(&[("event", "error"), ("message", "boom"), ("stack", "at x")]));
    assert!(e.is_terminal());
}

#[test]
fn state_changed_event_wire_form() {
    let e = Event::StateChanged { state: PipelineState::Playing };
    assert_eq!(e.wire_fields(), pairs(&[("event", "stateChanged"), ("state", "Playing")]));
    assert!(!e.is_terminal());
}

#[test]
fn eos_event_wire_form() {
    let e = Event::Eos {};
    assert_eq!(e.wire_fields(), pairs(&[("event", "eos")]));
    assert!(e.is_terminal());
}

#[test]
fn events_follow_message_order() {
    let msgs = vec![
        top_level_change(PipelineState::Null, PipelineState::Ready),
        BusMessage::Other,
        top_level_change(PipelineState::Ready, PipelineState::Paused),
        top_level_change(PipelineState::Paused, PipelineState::Playing),
        BusMessage::Eos,
    ];
    assert_eq!(
        pump_all(&msgs),
        vec![
            Event::StateChanged { state: PipelineState::Ready },
            Event::StateChanged { state: PipelineState::Paused },
            Event::StateChanged { state: PipelineState::Playing },
            Event::Eos {},
        ]
    );
}

#[test]
fn nested_state_changes_are_ignored() {
    let msgs = vec![
        BusMessage::StateChanged {
            from_pipeline: false,
            old: PipelineState::Null,
            current: PipelineState::Ready,
        },
        top_level_change(PipelineState::Ready, PipelineState::Paused),
    ];
    assert_eq!(pump_all(&msgs), vec![Event::StateChanged { state: PipelineState::Paused }]);
}

#[test]
fn nothing_after_eos() {
    let msgs = vec![
        BusMessage::Eos,
        top_level_change(PipelineState::Playing, PipelineState::Paused),
        error_msg("late", Some("detail")),
        BusMessage::Eos,
    ];
    assert_eq!(pump_all(&msgs), vec![Event::Eos {}]);
}

#[test]
fn nothing_after_error() {
    let mut pump = BusPump::new();
    let first = pump.on_message(&error_msg("decoder failed", Some("dbg")));
    assert_eq!(
        first,
        Some(Event::Error { message: "decoder failed".to_string(), stack: "dbg".to_string() })
    );
    assert!(pump.is_finished());
    assert_eq!(pump.on_message(&BusMessage::Eos), None);
    assert_eq!(pump.on_message(&top_level_change(PipelineState::Paused, PipelineState::Playing)), None);
}

#[test]
fn error_fields_nonempty_for_nonempty_description() {
    for debug in [None, Some(""), Some("trace")] {
        let out = pump_all(&vec![error_msg("no such file", debug)]);
        match &out[..] {
            [Event::Error { message, stack }] => {
                assert!(!message.is_empty());
                assert!(!stack.is_empty());
            }
            _ => panic!("expected one error event"),
        }
    }
}

#[test]
fn error_stack_falls_back_to_description() {
    let out = pump_all(&vec![error_msg("no such file", None)]);
    assert_eq!(
        out,
        vec![Event::Error { message: "no such file".to_string(), stack: "no such file".to_string() }]
    );
}

#[test]
fn empty_message_sequence_gives_no_events() {
    assert_eq!(pump_all(&Vec::new()), Vec::<Event>::new());
}

#[test]
fn dispatch_queues_events_and_quits_on_eos() {
    let (mut tx, mut rx) = mpsc::channel::<Event>(8);
    let mut pump = BusPump::new();
    assert_eq!(pump.dispatch(&mut tx, BusMessage::Other), PumpStep::Continue);
    assert_eq!(
        pump.dispatch(&mut tx, top_level_change(PipelineState::Ready, PipelineState::Paused)),
        PumpStep::Continue
    );
    assert_eq!(pump.dispatch(&mut tx, BusMessage::Eos), PumpStep::Quit);
    assert_eq!(pump.dispatch(&mut tx, BusMessage::Eos), PumpStep::Quit);
    assert_eq!(rx.try_recv().ok(), Some(Event::StateChanged { state: PipelineState::Paused }));
    assert_eq!(rx.try_recv().ok(), Some(Event::Eos {}));
    assert!(rx.try_recv().is_err());
}

#[test]
fn dispatch_fails_when_receiver_is_gone() {
    let (mut tx, rx) = mpsc::channel::<Event>(8);
    drop(rx);
    let mut pump = BusPump::new();
    assert_eq!(
        pump.dispatch(&mut tx, top_level_change(PipelineState::Ready, PipelineState::Paused)),
        PumpStep::SendFailed
    );
    assert!(pump.is_finished());
}

#[test]
fn after_send_outcomes() {
    let mut pump = BusPump::new();
    assert_eq!(pump.after_send(true), PumpStep::Continue);
    assert!(!pump.is_finished());
    assert_eq!(pump.after_send(false), PumpStep::SendFailed);
    assert!(pump.is_finished());
    assert_eq!(pump.after_send(true), PumpStep::Quit);
}

#[test]
fn dispatch_fails_when_channel_is_full() {
    let (mut tx, _rx) = mpsc::channel::<Event>(0);
    let mut pump = BusPump::new();
    let change = top_level_change(PipelineState::Ready, PipelineState::Paused);
    assert_eq!(pump.dispatch(&mut tx, change.clone()), PumpStep::Continue);
    assert_eq!(pump.dispatch(&mut tx, change), PumpStep::SendFailed);
    assert!(pump.is_finished());
}
