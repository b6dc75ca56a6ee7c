//! A self-escalating deadline tracker.
//!
//! A task gets a time budget. When the budget runs out without an
//! acknowledgment, the tracker grants itself a half and then a quarter of the
//! budget as fresh grace periods, and fails the task when the last one runs
//! out. Instants and durations are whole milliseconds; instants count from the
//! Unix epoch.

pub mod stage;
pub mod time;
pub mod clock;
pub mod ack;
pub mod round;
pub mod supervisor;
pub mod laws;
