use vstd::prelude::*;
use vstd::string::*;
use crate::state::{PipelineState, state_name};

verus! {

/// A lifecycle notification delivered to the caller, in the order in which
/// the graph's bus produced it. It holds no reference to the graph.
#[derive(Clone, Debug, PartialEq, Eq)]
pub enum Event {
    Error { message: String, stack: String },
    StateChanged { state: PipelineState },
    Eos {},
}

/// The mathematical value of an event.
pub enum EventView {
    Error { message: Seq<char>, stack: Seq<char> },
    StateChanged { state: PipelineState },
    Eos,
}

impl View for Event {
    type V = EventView;

    open spec fn view(&self) -> EventView {
        match self {
            Event::Error { message, stack } => EventView::Error { message: message@, stack: stack@ },
            Event::StateChanged { state } => EventView::StateChanged { state: *state },
            Event::Eos { .. } => EventView::Eos,
        }
    }
}

/// The views of a sequence of events.
pub open spec fn events_view(v: Seq<Event>) -> Seq<EventView> {
    v.map_values(|e: Event| e@)
}

/// The view of an optional event.
pub open spec fn opt_view(o: Option<Event>) -> Option<EventView> {
    match o {
        Some(e) => Some(e@),
        None => None,
    }
}

/// The value of the `event` field of an event's wire form.
pub open spec fn event_name(e: EventView) -> Seq<char> {
    match e {
        EventView::Error { .. } => "error"@,
        EventView::StateChanged { .. } => "stateChanged"@,
        EventView::Eos => "eos"@,
    }
}

/// The wire form of an event: its fields as (key, value) pairs, in order.
pub open spec fn wire_form(e: EventView) -> Seq<(Seq<char>, Seq<char>)> {
    match e {
        EventView::Error { message, stack } => seq![
            ("event"@, "error"@),
            ("message"@, message),
            ("stack"@, stack),
        ],
        EventView::StateChanged { state } => seq![
            ("event"@, "stateChanged"@),
            ("state"@, state_name(state)),
        ],
        EventView::Eos => seq![("event"@, "eos"@)],
    }
}

/// Whether an event ends the pipeline's run.
pub open spec fn is_terminal(e: EventView) -> bool {
    e is Error || e is Eos
}

/// The views of a list of string pairs.
pub open spec fn pairs_view(v: Seq<(String, String)>) -> Seq<(Seq<char>, Seq<char>)> {
    v.map_values(|p: (String, String)| (p.0@, p.1@))
}

impl Event {
    /// The value of the `event` field of this event's wire form.
    pub fn name(&self) -> (r: String)
        ensures
            r@ == event_name(self@),
    {
        match self {
            Event::Error { .. } => String::from_str("error"),
            Event::StateChanged { .. } => String::from_str("stateChanged"),
            Event::Eos { .. } => String::from_str("eos"),
        }
    }

    /// The fields of this event's wire form, in order.
    pub fn wire_fields(&self) -> (r: Vec<(String, String)>)
        ensures
            pairs_view(r@) == wire_form(self@),
    {
        let mut r: Vec<(String, String)> = Vec::new();
        r.push((String::from_str("event"), self.name()));
        match self {
            Event::Error { message, stack } => {
                r.push((String::from_str("message"), message.clone()));
                r.push((String::from_str("stack"), stack.clone()));
            },
            Event::StateChanged { state } => {
                r.push((String::from_str("state"), state.name()));
            },
            Event::Eos {} => {},
        }
        assert(pairs_view(r@) =~= wire_form(self@));
        r
    }

    /// Whether this event ends the pipeline's run.
    pub fn is_terminal(&self) -> (r: bool)
        ensures
            r == is_terminal(self@),
    {
        match self {
            Event::StateChanged { .. } => false,
            _ => true,
        }
    }
}

} // verus!
