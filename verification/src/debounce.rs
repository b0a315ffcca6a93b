//! A debouncer: of the actions triggered in quick succession only the last
//! one runs, once the delay has passed without another trigger.
//!
//! The debouncer keeps no clock. Each trigger hands out a ticket; whoever
//! owns the timers waits the delay out and then presents the ticket. Only
//! the ticket of the latest trigger is honoured.

use vstd::prelude::*;

verus! {

/// The debouncer of one acquisition. Debouncers share nothing: what is
/// triggered on one never touches another.
pub struct Debouncer<A> {
    delay_ms: u64,
    generation: u64,
    pending: Option<A>,
}

/// Mathematical model of a `Debouncer`.
pub struct DebouncerView<A> {
    pub delay_ms: u64,
    /// The ticket of the latest trigger.
    pub generation: u64,
    /// The action of the latest trigger, until it has run.
    pub pending: Option<A>,
}

/// The ticket that follows `ticket`.
pub open spec fn next_ticket(ticket: u64) -> u64 {
    if ticket == u64::MAX {
        0
    } else {
        (ticket + 1) as u64
    }
}

impl<A> DebouncerView<A> {
    /// The debouncer after `action` was triggered: it is the one pending
    /// action, under a new ticket.
    pub open spec fn triggered(self, action: A) -> DebouncerView<A> {
        DebouncerView {
            generation: next_ticket(self.generation),
            pending: Some(action),
            ..self
        }
    }

    /// The debouncer after the delay of `ticket` has passed, and the action
    /// that is now to run: the pending one if `ticket` is the latest, else
    /// none.
    pub open spec fn expired(self, ticket: u64) -> (DebouncerView<A>, Option<A>) {
        if self.pending is Some && ticket == self.generation {
            (DebouncerView { pending: None, ..self }, self.pending)
        } else {
            (self, None)
        }
    }

    /// The debouncer after the first `n` of `actions` were triggered in
    /// order, with no delay passing in between.
    pub open spec fn burst(self, actions: Seq<A>, n: nat) -> DebouncerView<A>
        decreases n,
    {
        if n == 0 || n > actions.len() {
            self
        } else {
            self.burst(actions, (n - 1) as nat).triggered(actions[n - 1])
        }
    }
}

impl<A> View for Debouncer<A> {
    type V = DebouncerView<A>;

    closed spec fn view(&self) -> DebouncerView<A> {
        DebouncerView {
            delay_ms: self.delay_ms,
            generation: self.generation,
            pending: self.pending,
        }
    }
}

impl<A> Debouncer<A> {
    /// A debouncer with the given delay in milliseconds and nothing
    /// pending.
    pub fn acquire(delay_ms: u64) -> (debouncer: Self)
        ensures
            debouncer@ == (DebouncerView::<A> { delay_ms, generation: 0, pending: None }),
    {
        Debouncer { delay_ms, generation: 0, pending: None }
    }

    /// The delay in milliseconds.
    pub fn delay_ms(&self) -> (delay_ms: u64)
        ensures
            delay_ms == self@.delay_ms,
    {
        self.delay_ms
    }

    /// Whether an action waits for its delay to pass.
    pub fn is_pending(&self) -> (pending: bool)
        ensures
            pending == self@.pending.is_some(),
    {
        self.pending.is_some()
    }

    /// Schedules `action` in place of whatever was pending, and hands out
    /// the ticket to present when the delay has passed.
    pub fn trigger(&mut self, action: A) -> (ticket: u64)
        ensures
            final(self)@ == old(self)@.triggered(action),
            ticket == final(self)@.generation,
    {
        self.generation = if self.generation == u64::MAX {
            0
        } else {
            self.generation + 1
        };
        self.pending = Some(action);
        self.generation
    }

    /// Takes note that the delay of `ticket` has passed, and hands out the
    /// action to run now, if there is one.
    pub fn expire(&mut self, ticket: u64) -> (action: Option<A>)
        ensures
            (final(self)@, action) == old(self)@.expired(ticket),
    {
        if self.pending.is_some() && ticket == self.generation {
            self.pending.take()
        } else {
            None
        }
    }

    /// Drops the pending action, if there is one.
    pub fn cancel(&mut self)
        ensures
            final(self)@ == (DebouncerView { pending: None, ..old(self)@ }),
    {
        self.pending = None;
    }
}

/// After `n` triggers the latest ticket is `n` tickets on from where it
/// was, counted round the range of `u64`.
pub proof fn lemma_burst_ticket<A>(state: DebouncerView<A>, actions: Seq<A>, n: nat)
    requires
        n <= actions.len(),
    ensures
        state.burst(actions, n).generation == (state.generation + n) % 0x1_0000_0000_0000_0000,
        state.burst(actions, n).delay_ms == state.delay_ms,
        n > 0 ==> state.burst(actions, n).pending == Some(actions[n - 1]),
    decreases n,
{
    if n > 0 {
        lemma_burst_ticket(state, actions, (n - 1) as nat);
    }
}

/// Coalescing. After a burst of triggers with no delay passing in between,
/// the tickets of all triggers but the last are dead: presenting one runs
/// nothing and changes nothing. The ticket of the last trigger runs the
/// last action, and after that no ticket runs anything: of the whole burst
/// exactly one action runs, with what the last trigger was given.
pub proof fn lemma_burst_runs_last_action_once<A>(
    state: DebouncerView<A>,
    actions: Seq<A>,
    i: nat,
)
    requires
        0 < actions.len() <= u64::MAX,
        i < actions.len(),
    ensures
        ({
            let end = state.burst(actions, actions.len());
            let ticket = state.burst(actions, i + 1).generation;
            &&& i + 1 < actions.len() ==> end.expired(ticket) == (end, None::<A>)
            &&& i + 1 == actions.len() ==> {
                &&& end.expired(ticket).1 == Some(actions.last())
                &&& forall|later: u64| (#[trigger] end.expired(ticket).0.expired(later)).1 is None
            }
        }),
{
    lemma_burst_ticket(state, actions, actions.len());
    lemma_burst_ticket(state, actions, i + 1);
}

} // verus!
