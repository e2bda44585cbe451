//! The callers' side: the two operations that reach the owner, and the
//! wiring of both channels.
use vstd::prelude::*;

use crossbeam_channel::{Receiver, Sender};

use crate::owner::Counter;
use crate::tally::Event;

verus! {

/// The owner is gone: a rendezvous channel is disconnected.
#[derive(Debug, Clone, Copy, PartialEq, Eq, Structural)]
pub struct ChannelBroken;

/// The callers' ends of the two channels, shared by every caller.
pub struct Channel {
    up_sender: Sender<()>,
    get_receiver: Receiver<u64>,
}

impl Channel {
    /// The end on which increments are signalled.
    pub closed spec fn up_end(&self) -> Sender<()> {
        self.up_sender
    }

    /// The end on which values are read.
    pub closed spec fn get_end(&self) -> Receiver<u64> {
        self.get_receiver
    }

    /// Callers' ends that signal on `up_sender` and read from `get_receiver`.
    pub fn new(up_sender: Sender<()>, get_receiver: Receiver<u64>) -> (r: Channel)
        ensures
            r.up_end() == up_sender,
            r.get_end() == get_receiver,
    {
        Channel { up_sender, get_receiver }
    }

    /// Asks the owner to add one, and blocks until it has accepted the
    /// signal.
    pub fn signal_increment(&self) -> (r: Result<(), ChannelBroken>) {
        match self.up_sender.send(()) {
            Ok(()) => Ok(()),
            Err(_) => Err(ChannelBroken),
        }
    }

    /// Blocks until the owner hands over its current value, and returns it.
    pub fn request_value(&self) -> (r: Result<u64, ChannelBroken>) {
        match self.get_receiver.recv() {
            Ok(v) => Ok(v),
            Err(_) => Err(ChannelBroken),
        }
    }
}

/// Builds both rendezvous channels and returns the owner's counter, at zero,
/// and the callers' ends.
pub fn connect() -> (r: (Counter, Channel))
    ensures
        r.0.wf(),
        r.0.value() == 0,
        r.0.served() == Seq::<Event>::empty(),
{
    let (up_sender, up_receiver) = crossbeam_channel::bounded::<()>(0);
    let (get_sender, get_receiver) = crossbeam_channel::bounded::<u64>(0);
    (Counter::new(up_receiver, get_sender), Channel::new(up_sender, get_receiver))
}

} // verus!
