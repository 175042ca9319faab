//! The unit of scheduling: an identified action with the instant of the week
//! at which it is due.

use crate::weektime::WeekTime;
use vstd::prelude::*;

verus! {

/// A unit of recurring work.  The scheduler carries the action with the
/// operation and hands it back when the operation is due; it never looks
/// inside it and never runs it.
pub struct Operation<A> {
    /// Chosen by the caller; stays the same through every re-arming.
    pub id: u64,
    /// The instant of the week at which the action is due, every week.
    pub target: WeekTime,
    /// What to run when the operation fires.
    pub action: A,
}

impl<A> Operation<A> {
    /// The operation `id`, due at `time` every week, that runs `operation`.
    pub fn new(id: u64, time: WeekTime, operation: A) -> (op: Self)
        ensures
            op == (Operation { id, target: time, action: operation }),
    {
        Operation { id, target: time, action: operation }
    }
}

} // verus!
