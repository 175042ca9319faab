//! The scheduler: the queue of submitted operations, the registry of live
//! waits, and every decision about them.
//!
//! Whoever drives the scheduler performs the waiting and runs the actions,
//! and reports each event back: an operation was submitted, a timer elapsed,
//! a cancellation or a shutdown was asked for.  Every decision (whether a
//! timer that elapsed may fire, which wait a new one supersedes, what is
//! refused after shutdown) is taken here, and each method does to the
//! scheduler what the transition of the same name in [`crate::state`] says.

use crate::operation::Operation;
use crate::state::{State, Wait, WaitOrder};
use crate::weektime::WeekTime;
use std::collections::HashMap;
use std::collections::VecDeque;
use vstd::prelude::*;
use vstd::std_specs::hash::group_hash_axioms;

verus! {

broadcast use group_hash_axioms;

/// Why the scheduler refused a request.
#[derive(Clone, Copy, Debug, PartialEq, Eq, Structural)]
pub enum SchedulerError {
    /// The scheduler was shut down and accepts no further submissions.
    Stopped,
}

/// The scheduler: a queue of submitted operations and a registry of live
/// waits.
pub struct Scheduler<A> {
    queue: VecDeque<Operation<A>>,
    registry: HashMap<u64, Wait<A>>,
    next_ticket: u64,
    stopped: bool,
}

impl<A> View for Scheduler<A> {
    type V = State<A>;

    closed spec fn view(&self) -> State<A> {
        State {
            queue: self.queue@,
            waits: self.registry@,
            issued: self.next_ticket as nat,
            stopped: self.stopped,
        }
    }
}

impl<A> Scheduler<A> {
    #[verifier::type_invariant]
    closed spec fn wf(self) -> bool {
        self@.inv()
    }

    /// A running scheduler with nothing queued and nothing waiting.
    pub fn new() -> (scheduler: Self)
        ensures
            scheduler@ == State::<A>::initial(),
            scheduler@.inv(),
    {
        Scheduler {
            queue: VecDeque::new(),
            registry: HashMap::new(),
            next_ticket: 0,
            stopped: false,
        }
    }

    /// Whether the scheduler was shut down.
    pub fn is_stopped(&self) -> (stopped: bool)
        ensures
            stopped == self@.stopped,
    {
        self.stopped
    }

    /// The number of operations that are queued and not yet waiting.
    pub fn pending(&self) -> (count: usize)
        ensures
            count == self@.queue.len(),
    {
        self.queue.len()
    }

    /// The ticket of the live wait of `id`, if it has one.
    pub fn waiting(&self, id: u64) -> (ticket: Option<u64>)
        ensures
            ticket == if self@.waits.contains_key(id) {
                Some(self@.waits[id].ticket)
            } else {
                None
            },
    {
        match self.registry.get(&id) {
            Some(wait) => Some(wait.ticket),
            None => None,
        }
    }

    /// The number of tickets issued so far.
    pub fn tickets_issued(&self) -> (issued: u64)
        ensures
            issued == self@.issued,
    {
        self.next_ticket
    }

    /// Submits `operation`: it joins the end of the queue.  A stopped
    /// scheduler refuses it.
    pub fn submit(&mut self, operation: Operation<A>) -> (accepted: Result<(), SchedulerError>)
        ensures
            final(self)@ == old(self)@.submit(operation),
            final(self)@.inv(),
            old(self)@.stopped ==> accepted == Err::<(), SchedulerError>(SchedulerError::Stopped),
            !old(self)@.stopped ==> accepted is Ok,
    {
        proof {
            use_type_invariant(&*self);
        }
        if self.stopped {
            return Err(SchedulerError::Stopped);
        }
        let mut queue = VecDeque::new();
        std::mem::swap(&mut queue, &mut self.queue);
        queue.push_back(operation);
        self.queue = queue;
        Ok(())
    }

    /// Submits a batch: the operations join the end of the queue in the
    /// order given.  A stopped scheduler refuses a batch that holds anything.
    pub fn initial_scheduling(&mut self, operations: Vec<Operation<A>>) -> (accepted: Result<
        (),
        SchedulerError,
    >)
        ensures
            final(self)@ == old(self)@.submit_many(operations@),
            final(self)@.inv(),
            old(self)@.stopped && operations@.len() > 0 ==> accepted == Err::<(), SchedulerError>(
                SchedulerError::Stopped,
            ),
            !(old(self)@.stopped && operations@.len() > 0) ==> accepted is Ok,
    {
        proof {
            use_type_invariant(&*self);
        }
        for operation in iter: operations
            invariant
                iter.seq() == operations@,
                !self@.stopped || iter.index() == 0,
                self@.stopped ==> self@ == old(self)@,
                !self@.stopped ==> self@ == (State {
                    queue: old(self)@.queue + operations@.take(iter.index() as int),
                    ..old(self)@
                }),
        {
            match self.submit(operation) {
                Ok(()) => {},
                Err(error) => {
                    return Err(error);
                },
            }
            assert(operations@.take(iter.index() + 1) =~= operations@.take(iter.index()).push(
                operation,
            ));
        }
        assert(operations@.take(operations@.len() as int) =~= operations@);
        Ok(())
    }

    /// Takes the oldest queued operation and starts its wait, as seen from
    /// the instant `now`: the operation is registered under a fresh ticket,
    /// in place of any earlier wait of the same id, and the order says how
    /// long to wait.  Returns `None`, and changes nothing, when nothing is
    /// queued or when every ticket has been issued.
    pub fn dispatch_next_at(&mut self, now: WeekTime) -> (order: Option<WaitOrder>)
        ensures
            final(self)@ == old(self)@.dispatch(),
            order == old(self)@.order(now),
            final(self)@.inv(),
    {
        proof {
            use_type_invariant(&*self);
        }
        if self.next_ticket == u64::MAX {
            return None;
        }
        let mut queue = VecDeque::new();
        std::mem::swap(&mut queue, &mut self.queue);
        match queue.pop_front() {
            None => {
                self.queue = queue;
                None
            },
            Some(operation) => {
                let id = operation.id;
                let ticket = self.next_ticket;
                let delay = now.interval_to(&operation.target);
                let mut registry = HashMap::new();
                std::mem::swap(&mut registry, &mut self.registry);
                let replaced = registry.insert(id, Wait { ticket, operation });
                self.next_ticket = ticket + 1;
                self.registry = registry;
                self.queue = queue;
                let superseded = match replaced {
                    Some(wait) => Some(wait.ticket),
                    None => None,
                };
                Some(WaitOrder { id, ticket, delay, superseded })
            },
        }
    }

    /// Takes the oldest queued operation and starts its wait, as seen from
    /// the local wall clock at the moment of the call.  The order is the one
    /// that `dispatch_next_at` gives for the instant that the clock showed.
    pub fn dispatch_next(&mut self) -> (order: Option<WaitOrder>)
        ensures
            final(self)@ == old(self)@.dispatch(),
            exists|now: WeekTime| now.wf() && order == old(self)@.order(now),
            final(self)@.inv(),
    {
        let now = WeekTime::now();
        self.dispatch_next_at(now)
    }

    /// Reports that the timer of the wait `ticket` of `id` elapsed.  If that
    /// wait is still the live wait of `id`, it leaves the registry and its
    /// operation is handed out to be run: it fires.  A wait that was
    /// cancelled or superseded in the meantime fires nothing.
    pub fn timer_elapsed(&mut self, id: u64, ticket: u64) -> (fired: Option<Operation<A>>)
        ensures
            final(self)@ == old(self)@.timer_elapsed(id, ticket),
            fired == if old(self)@.fires(id, ticket) {
                Some(old(self)@.waits[id].operation)
            } else {
                None
            },
            final(self)@.inv(),
    {
        proof {
            use_type_invariant(&*self);
        }
        let live = match self.registry.get(&id) {
            Some(wait) => wait.ticket == ticket,
            None => false,
        };
        if !live {
            return None;
        }
        let mut registry = HashMap::new();
        std::mem::swap(&mut registry, &mut self.registry);
        let removed = registry.remove(&id);
        self.registry = registry;
        match removed {
            Some(wait) => Some(wait.operation),
            None => None,
        }
    }

    /// Re-arms an operation that has fired: it is submitted again for the
    /// same day and time of the following week.  A stopped scheduler refuses
    /// it.
    pub fn rearm(&mut self, operation: Operation<A>) -> (accepted: Result<(), SchedulerError>)
        ensures
            final(self)@ == old(self)@.submit(operation),
            final(self)@.inv(),
            old(self)@.stopped ==> accepted == Err::<(), SchedulerError>(SchedulerError::Stopped),
            !old(self)@.stopped ==> accepted is Ok,
    {
        let Operation { id, target, action } = operation;
        self.submit(Operation { id, target: target.plus_week(), action })
    }

    /// Cancels `id`: its live wait, if it has one, leaves the registry, and
    /// the ticket of that wait is returned so that its timer can be dropped.
    /// Cancelling an id without a live wait changes nothing.
    pub fn cancel(&mut self, id: u64) -> (cancelled: Option<u64>)
        ensures
            final(self)@ == old(self)@.cancel(id),
            cancelled == if old(self)@.waits.contains_key(id) {
                Some(old(self)@.waits[id].ticket)
            } else {
                None
            },
            final(self)@.inv(),
    {
        proof {
            use_type_invariant(&*self);
        }
        let mut registry = HashMap::new();
        std::mem::swap(&mut registry, &mut self.registry);
        let removed = registry.remove(&id);
        self.registry = registry;
        match removed {
            Some(wait) => Some(wait.ticket),
            None => None,
        }
    }

    /// Shuts the scheduler down: every queued operation and every live wait
    /// is dropped without firing, and nothing is accepted any more.
    pub fn shutdown(&mut self)
        ensures
            final(self)@ == old(self)@.shutdown(),
            final(self)@.inv(),
    {
        proof {
            use_type_invariant(&*self);
        }
        let mut queue = VecDeque::new();
        std::mem::swap(&mut queue, &mut self.queue);
        let mut registry = HashMap::new();
        std::mem::swap(&mut registry, &mut self.registry);
        self.stopped = true;
    }
}

} // verus!
