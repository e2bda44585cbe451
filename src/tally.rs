//! The owner's state machine: the counter value, the events it serves and
//! what each event does to the value.
use vstd::prelude::*;

verus! {

/// What one turn of the owner's wait produced.
#[derive(Debug, Clone, Copy, PartialEq, Eq, Structural)]
pub enum Event {
    /// A caller's increment signal was accepted.
    Increment,
    /// A caller took the value the owner offered.
    Read,
    /// A rendezvous partner has gone away.
    Disconnected,
}

/// Why the owner stops serving.
#[derive(Debug, Clone, Copy, PartialEq, Eq, Structural)]
pub enum Halt {
    /// A channel is broken: the other side no longer exists.
    Disconnected,
    /// An increment arrived while the value was already `u64::MAX`.
    Exhausted,
}

/// What the owner did with one event.
#[derive(Debug, Clone, Copy, PartialEq, Eq, Structural)]
pub enum Step {
    /// The value went up by one; this is the new value.
    Counted(u64),
    /// This value was handed to a reader.
    Handed(u64),
    /// The owner cannot go on.
    Halted(Halt),
}

/// The number of increments in a sequence of served events.
pub open spec fn increments(events: Seq<Event>) -> nat
    decreases events.len(),
{
    if events.len() == 0 {
        0
    } else {
        increments(events.drop_last()) + if events.last() == Event::Increment {
            1nat
        } else {
            0nat
        }
    }
}

/// Whether the owner serves `event` when its value is `value`: it is then
/// recorded in the history and takes effect.
pub open spec fn is_served(value: nat, event: Event) -> bool {
    match event {
        Event::Increment => value < u64::MAX,
        Event::Read => true,
        Event::Disconnected => false,
    }
}

/// What the owner reports for `event` when its value is `value`.
pub open spec fn outcome(value: nat, event: Event) -> Step {
    match event {
        Event::Increment => if value < u64::MAX {
            Step::Counted((value + 1) as u64)
        } else {
            Step::Halted(Halt::Exhausted)
        },
        Event::Read => Step::Handed(value as u64),
        Event::Disconnected => Step::Halted(Halt::Disconnected),
    }
}

/// The counter and, as ghost state, every event it has served, in order.
pub struct Tally {
    count: u64,
    history: Ghost<Seq<Event>>,
}

impl Tally {
    /// The current value.
    pub closed spec fn value(&self) -> nat {
        self.count as nat
    }

    /// The served events, in the order the owner took them.
    pub closed spec fn served(&self) -> Seq<Event> {
        self.history@
    }

    /// The value is the number of increments served so far.
    pub open spec fn wf(&self) -> bool {
        self.value() == increments(self.served())
    }

    /// A counter at zero that has served nothing.
    pub fn new() -> (r: Tally)
        ensures
            r.wf(),
            r.value() == 0,
            r.served() == Seq::<Event>::empty(),
    {
        Tally { count: 0, history: Ghost(Seq::empty()) }
    }

    /// The current value.
    pub fn count(&self) -> (r: u64)
        ensures
            r == self.value(),
    {
        self.count
    }

    /// Serves one event: an increment adds one, a read hands out the value
    /// as it is now, and a broken channel stops the owner. An increment that
    /// would pass `u64::MAX` stops the owner too and changes nothing.
    pub fn serve(&mut self, event: Event) -> (r: Step)
        requires
            old(self).wf(),
        ensures
            final(self).wf(),
            r == outcome(old(self).value(), event),
            is_served(old(self).value(), event) ==> final(self).served() == old(self).served().push(
                event,
            ),
            !is_served(old(self).value(), event) ==> final(self).served() == old(self).served(),
            final(self).value() == old(self).value() + if event == Event::Increment
                && is_served(old(self).value(), event) {
                1nat
            } else {
                0nat
            },
    {
        match event {
            Event::Increment => {
                if self.count < u64::MAX {
                    self.count = self.count + 1;
                    self.history = Ghost(self.history@.push(Event::Increment));
                    proof {
                        assert(self.history@.drop_last() =~= old(self).history@);
                    }
                    Step::Counted(self.count)
                } else {
                    Step::Halted(Halt::Exhausted)
                }
            },
            Event::Read => {
                self.history = Ghost(self.history@.push(Event::Read));
                proof {
                    assert(self.history@.drop_last() =~= old(self).history@);
                }
                Step::Handed(self.count)
            },
            Event::Disconnected => Step::Halted(Halt::Disconnected),
        }
    }
}

} // verus!
