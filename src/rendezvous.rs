//! The crossbeam channel types and calls that the counter relies on.
use vstd::prelude::*;

use crossbeam_channel::{Receiver, RecvError, SendError, Sender};

use crate::tally::Event;

verus! {

#[verifier::external_type_specification]
#[verifier::external_body]
#[verifier::reject_recursive_types(T)]
pub struct ExSender<T>(Sender<T>);

#[verifier::external_type_specification]
#[verifier::external_body]
#[verifier::reject_recursive_types(T)]
pub struct ExReceiver<T>(Receiver<T>);

#[verifier::external_type_specification]
#[verifier::external_body]
#[verifier::reject_recursive_types(T)]
pub struct ExSendError<T>(SendError<T>);

#[verifier::external_type_specification]
#[verifier::external_body]
pub struct ExRecvError(RecvError);

/// Relies on `crossbeam_channel::bounded`: with capacity zero it builds a
/// rendezvous channel and does not panic (larger capacities may).
pub assume_specification<T>[ crossbeam_channel::bounded::<T> ](cap: usize) -> (Sender<T>, Receiver<T>)
    requires
        cap == 0,
;

/// Relies on `Sender::send`: it blocks until a receiver takes the message,
/// or fails once the channel is disconnected. Which one happens is up to the
/// other side, so nothing is promised.
pub assume_specification<T>[ Sender::<T>::send ](s: &Sender<T>, msg: T) -> Result<(), SendError<T>>;

/// Relies on `Receiver::recv`: it blocks until a sender hands over a message,
/// or fails once the channel is disconnected. What arrives is up to the other
/// side, so nothing is promised.
pub assume_specification<T>[ Receiver::<T>::recv ](r: &Receiver<T>) -> Result<T, RecvError>;

/// Relies on `crossbeam_channel::Select`: it waits until either an increment
/// can be received on `up` or `value` can be handed over on `get`, picks one
/// of the ready operations at random when both are, and completes it. An
/// operation that completes on a disconnected channel yields
/// `Event::Disconnected`. Which event comes is up to the callers on the other
/// side, so nothing is promised of it.
#[verifier::external_body]
pub(crate) fn select_event(up: &Receiver<()>, get: &Sender<u64>, value: u64) -> (r: Event) {
    let mut sel = crossbeam_channel::Select::new();
    let up_index = sel.recv(up);
    sel.send(get);
    let oper = sel.select();
    if oper.index() == up_index {
        match oper.recv(up) {
            Ok(()) => Event::Increment,
            Err(_) => Event::Disconnected,
        }
    } else {
        match oper.send(get, value) {
            Ok(()) => Event::Read,
            Err(_) => Event::Disconnected,
        }
    }
}

} // verus!
