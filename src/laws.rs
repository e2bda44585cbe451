//! Laws of the counter over the history of served events.
use vstd::prelude::*;

use crate::tally::{increments, Event, Tally};

verus! {

/// Increments served over two stretches of the history add up: the stretch
/// `later` adds its own increments to what `before` had, and nothing else.
pub proof fn lemma_increments_add(before: Seq<Event>, later: Seq<Event>)
    ensures
        increments(before + later) == increments(before) + increments(later),
    decreases later.len(),
{
    if later.len() > 0 {
        lemma_increments_add(before, later.drop_last());
        assert((before + later).drop_last() =~= before + later.drop_last());
    } else {
        assert(before + later =~= before);
    }
}

/// After `n` increments and nothing else are served, one after another in
/// any interleaving of their callers, a read observes the value that a read
/// just before them observed plus `n`: none is lost and none counts twice.
pub proof fn lemma_read_after_increments(before: Seq<Event>, stretch: Seq<Event>, n: nat)
    requires
        stretch.len() == n,
        forall|i: int| 0 <= i < n ==> stretch[i] == Event::Increment,
    ensures
        increments(before + stretch) == increments(before) + n,
    decreases n,
{
    lemma_increments_add(before, stretch);
    if n > 0 {
        lemma_read_after_increments(Seq::empty(), stretch.drop_last(), (n - 1) as nat);
        assert(Seq::<Event>::empty() + stretch.drop_last() =~= stretch.drop_last());
    }
}

/// A read never observes less than an earlier read did: the value does not
/// go down whatever is served in between.
pub proof fn lemma_value_never_decreases(before: Seq<Event>, later: Seq<Event>)
    ensures
        increments(before) <= increments(before + later),
{
    lemma_increments_add(before, later);
}

/// Whether an event is an increment.
pub open spec fn is_increment(e: Event) -> bool {
    e == Event::Increment
}

/// Increments served, counted one per accepted increment.
proof fn lemma_increments_filter(events: Seq<Event>)
    ensures
        increments(events) == events.filter(|e: Event| is_increment(e)).len(),
    decreases events.len(),
{
    reveal(Seq::filter);
    if events.len() > 0 {
        lemma_increments_filter(events.drop_last());
    }
}

/// The value of a counter is the number of increment rendezvous it has
/// accepted: each one added exactly one and reads added nothing.
pub proof fn lemma_value_is_accepted_increments(t: &Tally)
    requires
        t.wf(),
    ensures
        t.value() == t.served().filter(|e: Event| is_increment(e)).len(),
{
    lemma_increments_filter(t.served());
}

} // verus!
