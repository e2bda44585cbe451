//! The owner: the only holder of the counter, serving one rendezvous at a
//! time.
use vstd::prelude::*;

use crossbeam_channel::{Receiver, Sender};

use crate::rendezvous::select_event;
use crate::tally::{increments, Event, Halt, Step, Tally};

verus! {

/// The counter together with the owner's ends of the two channels: increments
/// come in on `up_receiver`, values go out on `get_sender`.
pub struct Counter {
    tally: Tally,
    up_receiver: Receiver<()>,
    get_sender: Sender<u64>,
}

impl Counter {
    /// The current value.
    pub closed spec fn value(&self) -> nat {
        self.tally.value()
    }

    /// The events served so far, in the order the owner took them.
    pub closed spec fn served(&self) -> Seq<Event> {
        self.tally.served()
    }

    /// The end on which increments arrive.
    pub closed spec fn up_end(&self) -> Receiver<()> {
        self.up_receiver
    }

    /// The end on which values are handed to readers.
    pub closed spec fn get_end(&self) -> Sender<u64> {
        self.get_sender
    }

    /// The value is the number of increments served so far.
    pub open spec fn wf(&self) -> bool {
        self.value() == increments(self.served())
    }

    /// A counter at zero that listens on `up_receiver` and answers on
    /// `get_sender`.
    pub fn new(up_receiver: Receiver<()>, get_sender: Sender<u64>) -> (r: Counter)
        ensures
            r.wf(),
            r.value() == 0,
            r.served() == Seq::<Event>::empty(),
            r.up_end() == up_receiver,
            r.get_end() == get_sender,
    {
        Counter { tally: Tally::new(), up_receiver, get_sender }
    }

    /// The current value.
    pub fn count(&self) -> (r: u64)
        ensures
            r == self.value(),
    {
        self.tally.count()
    }

    /// One turn of the owner: waits until an increment arrives or a reader
    /// takes the current value, and serves whichever happened. The value
    /// offered to readers is the value at the moment of the handoff.
    pub fn serve_next(&mut self) -> (r: Step)
        requires
            old(self).wf(),
        ensures
            final(self).wf(),
            final(self).up_end() == old(self).up_end(),
            final(self).get_end() == old(self).get_end(),
            match r {
                Step::Counted(n) => {
                    &&& old(self).value() < u64::MAX
                    &&& n == old(self).value() + 1
                    &&& final(self).value() == n
                    &&& final(self).served() == old(self).served().push(Event::Increment)
                },
                Step::Handed(v) => {
                    &&& v == old(self).value()
                    &&& final(self).value() == v
                    &&& final(self).served() == old(self).served().push(Event::Read)
                },
                Step::Halted(h) => {
                    &&& final(self).value() == old(self).value()
                    &&& final(self).served() == old(self).served()
                    &&& (h == Halt::Exhausted ==> old(self).value() == u64::MAX)
                },
            },
    {
        let offered = self.tally.count();
        let event = select_event(&self.up_receiver, &self.get_sender, offered);
        self.tally.serve(event)
    }
}

} // verus!
