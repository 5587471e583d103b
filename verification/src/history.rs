//! Histories of requests, and what holds of a budget after any of them.
//!
//! Each operation of [`Cap`](crate::cap::Cap) leaves the budget that
//! [`Budget::apply`] gives for the matching [`Event`]. A history is a
//! sequence of events in the order in which they were served, whoever made
//! the requests. The laws below hold of every history, so they hold of the
//! cap after any run of its operations.

use crate::budget::{word_range, Budget};
use vstd::prelude::*;

verus! {

/// One completed request.
pub enum Event {
    /// A request for `size` bytes, or the growth in place of a block by
    /// `size` bytes. `served` tells whether the wrapped allocator provided
    /// the memory; it is of no account where the budget denied the request.
    Allocate { size: nat, served: bool },
    /// A block of `size` bytes was freed.
    Dealloc { size: nat },
    /// A block was to be resized from `old_size` to `new_size` bytes.
    /// `served` tells whether the wrapped allocator resized it.
    Realloc { old_size: nat, new_size: nat, served: bool },
    /// The limit was to be changed to `limit`.
    SetLimit { limit: nat },
}

impl Budget {
    /// Whether the event is one that a caller may cause: a block that is
    /// freed or shrunk was granted before, so the bytes it returns are among
    /// those allocated.
    pub open spec fn permits(self, event: Event) -> bool {
        match event {
            Event::Allocate { .. } => true,
            Event::Dealloc { size } => size <= self.allocated(),
            Event::Realloc { old_size, new_size, .. } => new_size <= old_size ==> old_size
                - new_size <= self.allocated(),
            Event::SetLimit { .. } => true,
        }
    }

    /// The budget after the event.
    pub open spec fn apply(self, event: Event) -> Budget {
        match event {
            Event::Allocate { size, served } => self.allocate(size, served),
            Event::Dealloc { size } => self.dealloc(size),
            Event::Realloc { old_size, new_size, served } => self.realloc(
                old_size,
                new_size,
                served,
            ),
            Event::SetLimit { limit } => self.set_limit(limit),
        }
    }

    /// The bytes that the event adds to those allocated.
    pub open spec fn granted_by(self, event: Event) -> nat {
        match event {
            Event::Allocate { size, served } => if self.admits(size) && served {
                size
            } else {
                0
            },
            Event::Realloc { old_size, new_size, served } => if new_size > old_size && self.admits(
                (new_size - old_size) as nat,
            ) && served {
                (new_size - old_size) as nat
            } else {
                0
            },
            _ => 0,
        }
    }

    /// The bytes that the event takes from those allocated.
    pub open spec fn freed_by(self, event: Event) -> nat {
        match event {
            Event::Dealloc { size } => size,
            Event::Realloc { old_size, new_size, served } => if new_size <= old_size && served {
                (old_size - new_size) as nat
            } else {
                0
            },
            _ => 0,
        }
    }

    /// The budget after all of `events`, first to last.
    pub open spec fn replay(self, events: Seq<Event>) -> Budget
        decreases events.len(),
    {
        if events.len() == 0 {
            self
        } else {
            self.replay(events.drop_last()).apply(events.last())
        }
    }

    /// Whether each of `events` is permitted at the point where it occurs.
    pub open spec fn permits_all(self, events: Seq<Event>) -> bool
        decreases events.len(),
    {
        events.len() > 0 ==> self.permits_all(events.drop_last()) && self.replay(
            events.drop_last(),
        ).permits(events.last())
    }

    /// All bytes granted in the course of `events`.
    pub open spec fn granted(self, events: Seq<Event>) -> nat
        decreases events.len(),
    {
        if events.len() == 0 {
            0
        } else {
            self.granted(events.drop_last()) + self.replay(events.drop_last()).granted_by(
                events.last(),
            )
        }
    }

    /// All bytes freed in the course of `events`.
    pub open spec fn freed(self, events: Seq<Event>) -> nat
        decreases events.len(),
    {
        if events.len() == 0 {
            0
        } else {
            self.freed(events.drop_last()) + self.replay(events.drop_last()).freed_by(
                events.last(),
            )
        }
    }
}

/// A permitted event keeps a consistent budget consistent, and changes the
/// allocated bytes by exactly what it grants and what it frees.
pub proof fn lemma_event_accounting(budget: Budget, event: Event)
    requires
        budget.consistent(),
        budget.permits(event),
    ensures
        budget.apply(event).consistent(),
        budget.apply(event).allocated() + budget.freed_by(event) == budget.allocated()
            + budget.granted_by(event),
{
}

/// After any history of permitted events the budget is consistent: the
/// allocated bytes are within the limit, and what remains is the limit less
/// what is allocated.
pub proof fn lemma_history_keeps_budget(budget: Budget, events: Seq<Event>)
    requires
        budget.consistent(),
        budget.permits_all(events),
    ensures
        budget.replay(events).consistent(),
        budget.replay(events).allocated() <= budget.replay(events).limit,
        budget.replay(events).remaining == budget.replay(events).limit - budget.replay(
            events,
        ).allocated(),
    decreases events.len(),
{
    if events.len() > 0 {
        lemma_history_keeps_budget(budget, events.drop_last());
        lemma_event_accounting(budget.replay(events.drop_last()), events.last());
    }
}

/// After any history of permitted events, the allocated bytes are those
/// allocated before, plus all that was granted, less all that was freed.
pub proof fn lemma_history_accounting(budget: Budget, events: Seq<Event>)
    requires
        budget.consistent(),
        budget.permits_all(events),
    ensures
        budget.replay(events).allocated() + budget.freed(events) == budget.allocated()
            + budget.granted(events),
    decreases events.len(),
{
    if events.len() > 0 {
        lemma_history_accounting(budget, events.drop_last());
        lemma_history_keeps_budget(budget, events.drop_last());
        lemma_event_accounting(budget.replay(events.drop_last()), events.last());
    }
}

/// A history in which every granted byte is freed again leaves as many bytes
/// allocated as there were before it, in whatever order its events were
/// served.
pub proof fn lemma_matched_history_restores_allocated(budget: Budget, events: Seq<Event>)
    requires
        budget.consistent(),
        budget.permits_all(events),
        budget.granted(events) == budget.freed(events),
    ensures
        budget.replay(events).allocated() == budget.allocated(),
{
    lemma_history_accounting(budget, events);
}

/// An event whose grant does not carry the running total past a word adds
/// exactly that grant to the total. Where the event is permitted and the
/// peak was between the allocated bytes and the total, it still is.
pub proof fn lemma_event_statistics(budget: Budget, event: Event)
    requires
        budget.total_allocated + budget.granted_by(event) < word_range(),
    ensures
        budget.apply(event).total_allocated == budget.total_allocated + budget.granted_by(event),
        budget.consistent() && budget.permits(event) && budget.stats_sound() ==> budget.apply(
            event,
        ).stats_sound(),
{
}

/// The bytes granted by the first `earlier` events of a history are among
/// those granted by all of it.
pub proof fn lemma_granted_grows(budget: Budget, events: Seq<Event>, earlier: int)
    requires
        0 <= earlier <= events.len(),
    ensures
        budget.granted(events.take(earlier)) <= budget.granted(events),
    decreases events.len(),
{
    if earlier == events.len() {
        assert(events.take(earlier) == events);
    } else {
        assert(events.take(earlier) == events.drop_last().take(earlier));
        lemma_granted_grows(budget, events.drop_last(), earlier);
    }
}

/// As long as the running total fits a word, it counts every granted byte:
/// after a history it is the total before plus all that the history granted.
pub proof fn lemma_total_allocated_counts_grants(budget: Budget, events: Seq<Event>)
    requires
        budget.total_allocated + budget.granted(events) < word_range(),
    ensures
        budget.replay(events).total_allocated == budget.total_allocated + budget.granted(events),
    decreases events.len(),
{
    if events.len() > 0 {
        lemma_total_allocated_counts_grants(budget, events.drop_last());
        lemma_event_statistics(budget.replay(events.drop_last()), events.last());
    }
}

/// As long as the running total fits a word, it never decreases: at any
/// earlier point of a history it was at most what it is at the end.
pub proof fn lemma_total_allocated_never_decreases(
    budget: Budget,
    events: Seq<Event>,
    earlier: int,
)
    requires
        budget.total_allocated + budget.granted(events) < word_range(),
        0 <= earlier <= events.len(),
    ensures
        budget.replay(events.take(earlier)).total_allocated <= budget.replay(
            events,
        ).total_allocated,
{
    lemma_granted_grows(budget, events, earlier);
    lemma_total_allocated_counts_grants(budget, events.take(earlier));
    lemma_total_allocated_counts_grants(budget, events);
}

/// After any history of permitted events the peak is at least the bytes
/// allocated, if it was so before.
pub proof fn lemma_peak_covers_allocated(budget: Budget, events: Seq<Event>)
    requires
        budget.consistent(),
        budget.permits_all(events),
        budget.allocated() <= budget.max_allocated,
    ensures
        budget.replay(events).allocated() <= budget.replay(events).max_allocated,
    decreases events.len(),
{
    if events.len() > 0 {
        lemma_peak_covers_allocated(budget, events.drop_last());
        lemma_history_keeps_budget(budget, events.drop_last());
    }
}

/// As long as the running total fits a word, the peak stays between the
/// bytes allocated and the running total after any history of permitted
/// events.
pub proof fn lemma_peak_within_total(budget: Budget, events: Seq<Event>)
    requires
        budget.consistent(),
        budget.permits_all(events),
        budget.stats_sound(),
        budget.total_allocated + budget.granted(events) < word_range(),
    ensures
        budget.replay(events).stats_sound(),
    decreases events.len(),
{
    if events.len() > 0 {
        lemma_peak_within_total(budget, events.drop_last());
        lemma_history_keeps_budget(budget, events.drop_last());
        lemma_total_allocated_counts_grants(budget, events.drop_last());
        lemma_event_statistics(budget.replay(events.drop_last()), events.last());
    }
}

} // verus!
