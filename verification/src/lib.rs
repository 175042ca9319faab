//! A weekly-recurring operation scheduler.
//!
//! A [`weektime::WeekTime`] names an instant inside a repeating seven-day
//! week.  An [`Operation`] pairs such an instant with an action, and a
//! [`Scheduler`] decides, event by event, when each operation waits, fires,
//! is re-armed for the following week, or is cancelled.

mod clock;
pub mod operation;
pub mod scheduler;
pub mod state;
pub mod weektime;

pub use operation::Operation;
pub use scheduler::{Scheduler, SchedulerError};
pub use state::WaitOrder;
