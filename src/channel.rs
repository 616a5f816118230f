use vstd::prelude::*;
use vstd::string::*;
use futures::channel::mpsc::{Receiver, Sender, TryRecvError, TrySendError};
use crate::command::Command;
use crate::event::Event;

verus! {

#[verifier::external_type_specification]
#[verifier::external_body]
#[verifier::reject_recursive_types(T)]
pub struct ExSender<T>(Sender<T>);

#[verifier::external_type_specification]
#[verifier::external_body]
#[verifier::reject_recursive_types(T)]
pub struct ExReceiver<T>(Receiver<T>);

#[verifier::external_type_specification]
#[verifier::external_body]
#[verifier::reject_recursive_types(T)]
pub struct ExTrySendError<T>(TrySendError<T>);

#[verifier::external_type_specification]
#[verifier::external_body]
pub struct ExTryRecvError(TryRecvError);

/// Relies on futures' `Sender::try_send`: it queues the message without
/// waiting, or fails when the channel is full or its receiver is gone. Which
/// of these happens depends on the other end, so nothing is promised.
pub assume_specification<T>[ Sender::<T>::try_send ](tx: &mut Sender<T>, msg: T) -> Result<(), TrySendError<T>>;

/// Relies on futures' `TrySendError::is_full`: whether a failed send met a
/// full channel rather than a dropped receiver.
pub assume_specification<T>[ TrySendError::<T>::is_full ](e: &TrySendError<T>) -> bool;

/// Relies on futures' `Receiver::try_recv`: it takes the next queued message
/// without waiting, or fails when none is queued. What is queued depends on
/// the senders, so nothing is promised.
pub assume_specification<T>[ Receiver::<T>::try_recv ](rx: &mut Receiver<T>) -> Result<T, TryRecvError>;

/// The bound of the event and command channels between the worker and the
/// caller; generous, so that a full event channel stays out of reach in
/// correct operation.
pub const CHANNEL_CAPACITY: usize = 1000;

/// Why a command could not be queued for the worker.
#[derive(Clone, Copy, Debug, PartialEq, Eq, Structural)]
pub enum SubmitError {
    /// The command channel holds as many commands as it can.
    Full,
    /// The worker has dropped its end of the command channel.
    Closed,
}

/// The message reported to the caller for a refused command.
pub open spec fn submit_error_message(e: SubmitError) -> Seq<char> {
    match e {
        SubmitError::Full => "send failed because channel is full"@,
        SubmitError::Closed => "send failed because receiver is gone"@,
    }
}

impl SubmitError {
    /// The message reported to the caller for this error.
    pub fn message(&self) -> (r: String)
        ensures
            r@ == submit_error_message(*self),
    {
        match self {
            SubmitError::Full => String::from_str("send failed because channel is full"),
            SubmitError::Closed => String::from_str("send failed because receiver is gone"),
        }
    }
}

/// The outcome of one attempt to receive: the message if one was taken, and
/// nothing when the channel was empty or closed.
pub fn received<T>(r: Result<T, TryRecvError>) -> (o: Option<T>)
    ensures
        r is Ok <==> o is Some,
        r is Ok ==> o == Some(r->Ok_0),
{
    match r {
        Ok(v) => Some(v),
        Err(_) => None,
    }
}

/// Takes the next pending event without waiting; `None` when no event is
/// pending or the worker is gone.
pub fn poll_event(rx: &mut Receiver<Event>) -> (o: Option<Event>) {
    received(rx.try_recv())
}

/// The result of submitting a command, from whether the send went through
/// and, if not, whether the channel was full.
pub fn submit_outcome(sent: bool, full: bool) -> (r: Result<(), SubmitError>)
    ensures
        sent ==> r == Ok::<(), SubmitError>(()),
        (!sent && full) ==> r == Err::<(), SubmitError>(SubmitError::Full),
        (!sent && !full) ==> r == Err::<(), SubmitError>(SubmitError::Closed),
{
    if sent {
        Ok(())
    } else if full {
        Err(SubmitError::Full)
    } else {
        Err(SubmitError::Closed)
    }
}

/// Queues a command for the worker without waiting. A full or closed channel
/// is reported to the caller, and the command is dropped.
pub fn submit_command(tx: &mut Sender<Command>, c: Command) -> (r: Result<(), SubmitError>) {
    match tx.try_send(c) {
        Ok(()) => submit_outcome(true, false),
        Err(e) => submit_outcome(false, e.is_full()),
    }
}

} // verus!
