//! The scheduler as a state machine: its states, the events it reacts to,
//! and what holds of every run.

use crate::operation::Operation;
use crate::weektime::WeekTime;
use vstd::prelude::*;

verus! {

/// A live wait: an operation that was taken from the queue and now waits for
/// its instant.  The ticket tells this wait from every other wait the
/// scheduler ever started, also from earlier waits of the same operation.
pub struct Wait<A> {
    /// The ticket that the timer of this wait reports when it elapses.
    pub ticket: u64,
    /// The operation that fires when it does.
    pub operation: Operation<A>,
}

/// What the scheduler asks of its driver when it starts a wait.
#[derive(Clone, Copy, Debug, PartialEq, Eq, Structural)]
pub struct WaitOrder {
    /// The operation that waits.
    pub id: u64,
    /// The ticket to report back when the timer elapses.
    pub ticket: u64,
    /// How long to wait before reporting, in seconds.
    pub delay: u64,
    /// The ticket of an earlier wait of the same operation that this one
    /// replaces, whose timer can be dropped.
    pub superseded: Option<u64>,
}

/// An event that a scheduler reacts to.
pub enum Event<A> {
    /// An operation was submitted, for the first time or to re-arm it.
    Submit(Operation<A>),
    /// The oldest queued operation was asked to start its wait.
    Dispatch,
    /// The timer of the wait `ticket` of operation `id` elapsed.
    TimerElapsed { id: u64, ticket: u64 },
    /// The operation with this id was cancelled.
    Cancel(u64),
    /// The scheduler was shut down.
    Shutdown,
}

/// Each wait in `waits` is registered under the id of its operation and
/// carries one of the first `issued` tickets.
pub open spec fn registered<A>(waits: Map<u64, Wait<A>>, issued: nat) -> bool {
    forall|id: u64| #[trigger]
        waits.contains_key(id) ==> waits[id].operation.id == id && waits[id].ticket < issued
}

/// The state of a scheduler, as the contracts see it.
pub struct State<A> {
    /// Operations submitted and not yet waiting, oldest first.
    pub queue: Seq<Operation<A>>,
    /// The registry: the live wait of each operation that has one.
    pub waits: Map<u64, Wait<A>>,
    /// How many tickets were issued so far.
    pub issued: nat,
    /// Whether the scheduler was shut down.
    pub stopped: bool,
}

impl<A> State<A> {
    /// The state of a scheduler that has just been made.
    pub open spec fn initial() -> State<A> {
        State { queue: Seq::empty(), waits: Map::empty(), issued: 0, stopped: false }
    }

    /// What holds of every state that a scheduler reaches: each wait is
    /// registered under the id of its operation and carries a ticket that
    /// was issued, and a stopped scheduler holds nothing.
    pub open spec fn inv(self) -> bool {
        &&& registered(self.waits, self.issued)
        &&& self.issued <= u64::MAX
        &&& self.stopped ==> self.queue.len() == 0 && self.waits =~= Map::empty()
    }

    /// The state after `operation` was submitted: it joins the end of the
    /// queue, unless the scheduler is stopped.
    pub open spec fn submit(self, operation: Operation<A>) -> State<A> {
        if self.stopped {
            self
        } else {
            State { queue: self.queue.push(operation), ..self }
        }
    }

    /// The state after a batch was submitted: the operations join the end of
    /// the queue in the order given, unless the scheduler is stopped.
    pub open spec fn submit_many(self, operations: Seq<Operation<A>>) -> State<A> {
        if self.stopped {
            self
        } else {
            State { queue: self.queue + operations, ..self }
        }
    }

    /// Whether a dispatch has anything to do: an operation is queued and a
    /// ticket is left to give to its wait.
    pub open spec fn can_dispatch(self) -> bool {
        self.queue.len() > 0 && self.issued < u64::MAX
    }

    /// The state after a dispatch: the oldest queued operation leaves the
    /// queue and is registered as the live wait of its id, under a fresh
    /// ticket, in place of any earlier wait of that id.  Where nothing can
    /// be dispatched the state stays as it is.
    pub open spec fn dispatch(self) -> State<A> {
        if self.can_dispatch() {
            let operation = self.queue[0];
            State {
                queue: self.queue.subrange(1, self.queue.len() as int),
                waits: self.waits.insert(
                    operation.id,
                    Wait { ticket: self.issued as u64, operation },
                ),
                issued: self.issued + 1,
                stopped: self.stopped,
            }
        } else {
            self
        }
    }

    /// What a dispatch at the instant `now` asks of the driver: to wait for
    /// the oldest queued operation, from `now` until its target comes next.
    pub open spec fn order(self, now: WeekTime) -> Option<WaitOrder> {
        if self.can_dispatch() {
            let operation = self.queue[0];
            Some(
                WaitOrder {
                    id: operation.id,
                    ticket: self.issued as u64,
                    delay: now.interval_to(&operation.target),
                    superseded: if self.waits.contains_key(operation.id) {
                        Some(self.waits[operation.id].ticket)
                    } else {
                        None
                    },
                },
            )
        } else {
            None
        }
    }

    /// Whether the wait that holds `ticket` is the live wait of `id`: only
    /// then may its timer fire the operation.
    pub open spec fn fires(self, id: u64, ticket: u64) -> bool {
        self.waits.contains_key(id) && self.waits[id].ticket == ticket
    }

    /// The state after the timer of the wait `ticket` of `id` elapsed: a
    /// live wait leaves the registry, anything else changes nothing.
    pub open spec fn timer_elapsed(self, id: u64, ticket: u64) -> State<A> {
        if self.fires(id, ticket) {
            State { waits: self.waits.remove(id), ..self }
        } else {
            self
        }
    }

    /// The state after `id` was cancelled: its live wait, if it has one,
    /// leaves the registry.
    pub open spec fn cancel(self, id: u64) -> State<A> {
        State { waits: self.waits.remove(id), ..self }
    }

    /// The state after shutdown: nothing queued, nothing waiting, stopped.
    pub open spec fn shutdown(self) -> State<A> {
        State { queue: Seq::empty(), waits: Map::empty(), issued: self.issued, stopped: true }
    }

    /// The state after one event.
    pub open spec fn step(self, event: Event<A>) -> State<A> {
        match event {
            Event::Submit(operation) => self.submit(operation),
            Event::Dispatch => self.dispatch(),
            Event::TimerElapsed { id, ticket } => self.timer_elapsed(id, ticket),
            Event::Cancel(id) => self.cancel(id),
            Event::Shutdown => self.shutdown(),
        }
    }

    /// The state after a run of events, the first of them first.
    pub open spec fn run(self, events: Seq<Event<A>>) -> State<A>
        decreases events.len(),
    {
        if events.len() == 0 {
            self
        } else {
            self.run(events.drop_last()).step(events.last())
        }
    }

    /// Whether `ticket` was issued and is no longer, or never was, the
    /// ticket of the live wait of `id`: a timer that reports it fires
    /// nothing.
    pub open spec fn spent(self, id: u64, ticket: u64) -> bool {
        ticket < self.issued && !self.fires(id, ticket)
    }

    /// A scheduler starts in a state that meets the invariant.
    pub proof fn lemma_initial_inv()
        ensures
            State::<A>::initial().inv(),
    {
    }

    /// No event leads out of the states that meet the invariant.
    pub proof fn lemma_step_keeps_inv(self, event: Event<A>)
        requires
            self.inv(),
        ensures
            self.step(event).inv(),
    {
    }

    /// No run of events leads out of the states that meet the invariant.
    pub proof fn lemma_run_keeps_inv(self, events: Seq<Event<A>>)
        requires
            self.inv(),
        ensures
            self.run(events).inv(),
        decreases events.len(),
    {
        if events.len() > 0 {
            self.lemma_run_keeps_inv(events.drop_last());
            self.run(events.drop_last()).lemma_step_keeps_inv(events.last());
        }
    }

    /// A ticket that is spent stays spent: tickets are never issued twice,
    /// so no event brings a wait back.
    pub proof fn lemma_spent_stays_spent(self, event: Event<A>, id: u64, ticket: u64)
        requires
            self.spent(id, ticket),
        ensures
            self.step(event).spent(id, ticket),
    {
    }

    /// A ticket that is spent stays spent through every run of events.
    pub proof fn lemma_spent_for_good(self, events: Seq<Event<A>>, id: u64, ticket: u64)
        requires
            self.spent(id, ticket),
        ensures
            self.run(events).spent(id, ticket),
        decreases events.len(),
    {
        if events.len() > 0 {
            let before = self.run(events.drop_last());
            self.lemma_spent_for_good(events.drop_last(), id, ticket);
            before.lemma_spent_stays_spent(events.last(), id, ticket);
        }
    }

    /// Cancelling an operation before the timer of its wait elapses takes
    /// its wait out of the registry and puts nothing in the queue, and
    /// whatever happens afterwards, that timer fires nothing.
    pub proof fn lemma_cancelled_wait_never_fires(self, id: u64, events: Seq<Event<A>>)
        requires
            self.inv(),
            self.waits.contains_key(id),
        ensures
            !self.cancel(id).waits.contains_key(id),
            self.cancel(id).queue == self.queue,
            !self.cancel(id).run(events).fires(id, self.waits[id].ticket),
    {
        self.cancel(id).lemma_spent_for_good(events, id, self.waits[id].ticket);
    }

    /// A wait fires at most once: the timer that fires takes the wait out of
    /// the registry, and whatever happens afterwards, and however often the
    /// operation is submitted and cancelled again, a second report of that
    /// timer fires nothing.
    pub proof fn lemma_wait_fires_once(self, id: u64, ticket: u64, events: Seq<Event<A>>)
        requires
            self.inv(),
            self.fires(id, ticket),
        ensures
            !self.timer_elapsed(id, ticket).waits.contains_key(id),
            !self.timer_elapsed(id, ticket).run(events).fires(id, ticket),
    {
        self.timer_elapsed(id, ticket).lemma_spent_for_good(events, id, ticket);
    }

    /// A wait that a later wait of the same operation has replaced never
    /// fires: each operation has at most one wait that can.
    pub proof fn lemma_superseded_wait_never_fires(self, events: Seq<Event<A>>)
        requires
            self.inv(),
            self.can_dispatch(),
            self.waits.contains_key(self.queue[0].id),
        ensures
            !self.dispatch().run(events).fires(
                self.queue[0].id,
                self.waits[self.queue[0].id].ticket,
            ),
    {
        let id = self.queue[0].id;
        self.dispatch().lemma_spent_for_good(events, id, self.waits[id].ticket);
    }

    /// A live wait stays as it is until its own timer fires it, its
    /// operation is cancelled, a later wait of its operation replaces it, or
    /// the scheduler shuts down.  Nothing that happens to other operations
    /// disturbs it.
    pub proof fn lemma_wait_ends_only_by(self, event: Event<A>, id: u64)
        requires
            self.waits.contains_key(id),
        ensures
            ({
                ||| self.step(event).waits.contains_key(id) && self.step(event).waits[id]
                    == self.waits[id]
                ||| event == (Event::<A>::TimerElapsed { id, ticket: self.waits[id].ticket })
                ||| event == Event::<A>::Cancel(id)
                ||| event == Event::<A>::Shutdown
                ||| event == Event::<A>::Dispatch && self.can_dispatch() && self.queue[0].id == id
            }),
    {
    }

    /// Shutdown is final: it leaves nothing queued and nothing waiting, and
    /// whatever happens afterwards changes nothing.  No timer fires, and no
    /// submission is taken.
    pub proof fn lemma_shutdown_is_final(self, events: Seq<Event<A>>)
        ensures
            self.shutdown().run(events) == self.shutdown(),
            forall|id: u64, ticket: u64| !self.shutdown().run(events).fires(id, ticket),
        decreases events.len(),
    {
        if events.len() > 0 {
            self.lemma_shutdown_is_final(events.drop_last());
            let stopped = self.shutdown();
            assert(stopped.step(events.last()).waits =~= stopped.waits);
            assert(stopped.step(events.last()) == stopped);
        }
    }
}

} // verus!
