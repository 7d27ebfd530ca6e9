//! A virtual-time timer registry that makes time-dependent asynchronous code deterministically
//! testable.
//!
//! The registry keeps a logical clock and the timers pending on it. Nothing in this crate
//! waits: every operation is a step on plain state, so that a cooperative driver can hold the
//! state behind a lock and wait between the steps.
pub mod clock;
pub mod duration;
pub mod event;
pub mod instant;
pub mod instant_order;
pub mod interval;
pub mod interval_laws;
pub mod registry_laws;
pub mod registry_view;
pub mod time_handler_guard;
pub mod timeout;
pub mod timer;
pub mod timer_registry;

pub use clock::MockableClock;
pub use instant::Instant;
pub use interval::{Interval, MissedTickBehavior};
pub use time_handler_guard::TimeHandlerGuard;
pub use timeout::{Elapsed, Timeout};
pub use timer::TimerListener;
pub use timer_registry::{AdvanceStep, TimerRegistry};
