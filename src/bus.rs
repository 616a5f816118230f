use vstd::prelude::*;
use futures::channel::mpsc::Sender;
use crate::event::{Event, EventView, events_view, opt_view};
use crate::state::PipelineState;

verus! {

/// A message taken from the graph's bus, reduced to what the pump reads.
#[derive(Clone, Debug)]
pub enum BusMessage {
    /// The graph has reached the end of its input.
    Eos,
    /// A node changed state; `from_pipeline` tells whether that node is the
    /// top-level graph itself.
    StateChanged { from_pipeline: bool, old: PipelineState, current: PipelineState },
    /// A node failed: a human-readable description and, when the runtime
    /// has one, its diagnostic detail.
    Error { description: String, debug: Option<String> },
    /// Any other kind of message.
    Other,
}

/// The stack text of an error event: the diagnostic detail when there is a
/// non-empty one, else the description itself.
pub open spec fn error_stack(description: Seq<char>, debug: Option<String>) -> Seq<char> {
    match debug {
        Some(d) => if d@.len() > 0 { d@ } else { description },
        None => description,
    }
}

/// The event that one message gives, if any.
pub open spec fn classify(m: BusMessage) -> Option<EventView> {
    match m {
        BusMessage::Eos => Some(EventView::Eos),
        BusMessage::StateChanged { from_pipeline, current, .. } => if from_pipeline {
            Some(EventView::StateChanged { state: current })
        } else {
            None
        },
        BusMessage::Error { description, debug } => Some(
            EventView::Error { message: description@, stack: error_stack(description@, debug) },
        ),
        BusMessage::Other => None,
    }
}

/// Whether a message ends the pump's run.
pub open spec fn ends_run(m: BusMessage) -> bool {
    m is Eos || m is Error
}

/// Whether some message of a sequence ends the run.
pub open spec fn has_end(s: Seq<BusMessage>) -> bool {
    exists|i: int| 0 <= i < s.len() && ends_run(#[trigger] s[i])
}

/// An optional event as a sequence of zero or one events.
pub open spec fn opt_seq(o: Option<EventView>) -> Seq<EventView> {
    match o {
        Some(e) => seq![e],
        None => Seq::empty(),
    }
}

/// The events that a run of the pump delivers for a sequence of messages:
/// each message's event in arrival order, up to and including the first
/// message that ends the run.
pub open spec fn events_of(s: Seq<BusMessage>) -> Seq<EventView>
    decreases s.len(),
{
    if s.len() == 0 {
        Seq::empty()
    } else {
        let pre = s.drop_last();
        if has_end(pre) {
            events_of(pre)
        } else {
            events_of(pre) + opt_seq(classify(s.last()))
        }
    }
}

proof fn lemma_has_end_concat(a: Seq<BusMessage>, b: Seq<BusMessage>)
    ensures
        has_end(a + b) == (has_end(a) || has_end(b)),
{
    let c = a + b;
    if has_end(c) {
        let k = choose|k: int| 0 <= k < c.len() && ends_run(#[trigger] c[k]);
        if k < a.len() {
            assert(ends_run(a[k]));
        } else {
            assert(ends_run(b[k - a.len()]));
        }
    }
    if has_end(a) {
        let k = choose|k: int| 0 <= k < a.len() && ends_run(#[trigger] a[k]);
        assert(ends_run(c[k]));
    }
    if has_end(b) {
        let k = choose|k: int| 0 <= k < b.len() && ends_run(#[trigger] b[k]);
        assert(ends_run(c[k + a.len()]));
    }
}

/// Events are delivered in the order in which their messages arrived, with
/// nothing reordered or merged: while no message has ended the run, the
/// events of a longer sequence are those of its first part followed by
/// those of the rest.
pub proof fn lemma_delivery_in_arrival_order(a: Seq<BusMessage>, b: Seq<BusMessage>)
    requires
        !has_end(a),
    ensures
        events_of(a + b) == events_of(a) + events_of(b),
    decreases b.len(),
{
    if b.len() == 0 {
        assert(a + b =~= a);
        assert(events_of(a) + events_of(b) =~= events_of(a));
    } else {
        let c = a + b;
        let b0 = b.drop_last();
        assert(c.drop_last() =~= a + b0);
        assert(c.last() == b.last());
        lemma_delivery_in_arrival_order(a, b0);
        lemma_has_end_concat(a, b0);
        let tail = opt_seq(classify(b.last()));
        assert(events_of(a) + events_of(b0) + tail =~= events_of(a) + (events_of(b0) + tail));
    }
}

/// Once a message has ended the run (end of stream or error), no later
/// message gives an event.
pub proof fn lemma_nothing_after_end(a: Seq<BusMessage>, b: Seq<BusMessage>)
    requires
        has_end(a),
    ensures
        events_of(a + b) == events_of(a),
    decreases b.len(),
{
    if b.len() == 0 {
        assert(a + b =~= a);
    } else {
        let b0 = b.drop_last();
        assert((a + b).drop_last() =~= a + b0);
        lemma_nothing_after_end(a, b0);
        lemma_has_end_concat(a, b0);
    }
}

/// An error message with a non-empty description gives an error event whose
/// message and stack are both non-empty.
pub proof fn lemma_error_fields_nonempty(m: BusMessage)
    requires
        m is Error,
        m->description@.len() > 0,
    ensures
        classify(m) matches Some(EventView::Error { message, stack }) && message.len() > 0
            && stack.len() > 0,
{
}

/// What the worker does after the pump has handled a message.
#[derive(Clone, Copy, Debug, PartialEq, Eq, Structural)]
pub enum PumpStep {
    /// Keep reading the bus.
    Continue,
    /// The run is over (end of stream or error): stop the graph.
    Quit,
    /// An event could not be queued for the caller: a fatal condition.
    SendFailed,
}

/// Turns bus messages into events until the end of stream or an error.
pub struct BusPump {
    finished: bool,
}

impl BusPump {
    pub closed spec fn finished(&self) -> bool {
        self.finished
    }

    pub fn new() -> (r: BusPump)
        ensures
            !r.finished(),
    {
        BusPump { finished: false }
    }

    /// Whether the run is over.
    pub fn is_finished(&self) -> (r: bool)
        ensures
            r == self.finished(),
    {
        self.finished
    }

    /// Classifies one message. Once the run is over nothing more is emitted.
    pub fn on_message(&mut self, m: &BusMessage) -> (r: Option<Event>)
        ensures
            old(self).finished() ==> r is None && final(self).finished(),
            !old(self).finished() ==> {
                &&& opt_view(r) == classify(*m)
                &&& final(self).finished() == ends_run(*m)
            },
    {
        if self.finished {
            return None;
        }
        match m {
            BusMessage::Eos => {
                self.finished = true;
                Some(Event::Eos {})
            },
            BusMessage::StateChanged { from_pipeline, current, .. } => {
                if *from_pipeline {
                    Some(Event::StateChanged { state: *current })
                } else {
                    None
                }
            },
            BusMessage::Error { description, debug } => {
                self.finished = true;
                let stack = match debug {
                    Some(d) => if d.as_str().is_empty() { description.clone() } else { d.clone() },
                    None => description.clone(),
                };
                Some(Event::Error { message: description.clone(), stack })
            },
            BusMessage::Other => None,
        }
    }

    /// Records the outcome of queueing an event for the caller. A failed
    /// queueing is fatal: the run is over and the worker must stop.
    pub fn after_send(&mut self, sent: bool) -> (r: PumpStep)
        ensures
            !sent ==> (r == PumpStep::SendFailed && final(self).finished()),
            sent ==> (final(self).finished() == old(self).finished() && r == (if old(self).finished() {
                PumpStep::Quit
            } else {
                PumpStep::Continue
            })),
    {
        if !sent {
            self.finished = true;
            PumpStep::SendFailed
        } else if self.finished {
            PumpStep::Quit
        } else {
            PumpStep::Continue
        }
    }

    /// Handles one message and queues its event for the caller, if any.
    /// What is returned after a queueing is `after_send` of its outcome.
    pub fn dispatch(&mut self, tx: &mut Sender<Event>, m: BusMessage) -> (r: PumpStep)
        ensures
            old(self).finished() ==> (final(self).finished() && r == PumpStep::Quit),
            r == PumpStep::Continue <==> !final(self).finished(),
            !old(self).finished() && classify(m) is None ==> (final(self).finished() == ends_run(m)
                && r == (if ends_run(m) {
                PumpStep::Quit
            } else {
                PumpStep::Continue
            })),
            !old(self).finished() && classify(m) is Some ==> ((r == PumpStep::SendFailed
                && final(self).finished()) || (final(self).finished() == ends_run(m) && r == (
            if ends_run(m) {
                PumpStep::Quit
            } else {
                PumpStep::Continue
            }))),
    {
        match self.on_message(&m) {
            Some(e) => {
                let sent = tx.try_send(e).is_ok();
                self.after_send(sent)
            },
            None => if self.finished {
                PumpStep::Quit
            } else {
                PumpStep::Continue
            },
        }
    }
}

/// Runs a fresh pump over a sequence of messages and collects the events it
/// emits, in order.
pub fn pump_all(msgs: &Vec<BusMessage>) -> (r: Vec<Event>)
    ensures
        events_view(r@) == events_of(msgs@),
{
    let mut pump = BusPump::new();
    let mut out: Vec<Event> = Vec::new();
    let mut i: usize = 0;
    while i < msgs.len()
        invariant
            0 <= i <= msgs@.len(),
            events_view(out@) == events_of(msgs@.subrange(0, i as int)),
            pump.finished() == has_end(msgs@.subrange(0, i as int)),
        decreases msgs@.len() - i,
    {
        let ghost pre = msgs@.subrange(0, i as int);
        let ghost next = msgs@.subrange(0, i + 1);
        assert(next.drop_last() =~= pre);
        assert(next.last() == msgs@[i as int]);
        let e = pump.on_message(&msgs[i]);
        proof {
            if ends_run(msgs@[i as int]) {
                assert(ends_run(next[i as int]));
            }
            if has_end(next) && !has_end(pre) {
                let k = choose|k: int| 0 <= k < next.len() && ends_run(#[trigger] next[k]);
                if k < i {
                    assert(ends_run(pre[k]));
                }
            }
            if has_end(pre) {
                let k = choose|k: int| 0 <= k < pre.len() && ends_run(#[trigger] pre[k]);
                assert(ends_run(next[k]));
            }
        }
        let ghost out0 = out@;
        match e {
            Some(ev) => {
                out.push(ev);
                assert(events_view(out@) =~= events_view(out0) + seq![ev@]);
            },
            None => {
                assert(events_view(out@) =~= events_view(out0) + Seq::<EventView>::empty());
            },
        }
        i = i + 1;
    }
    assert(msgs@.subrange(0, msgs@.len() as int) =~= msgs@);
    out
}

} // verus!
