//! Recurring, time-of-day-triggered notifications.
//!
//! The crate holds the decisions of a notification service: what a
//! notification is, when its timers fire next, which requests are admitted,
//! and what the boundary answers. Transport, storage and the task runtime are
//! the caller's; the library hands them plain values and takes plain values
//! back.

pub mod clock;
pub mod config;
pub mod endpoints;
pub mod errors;
pub mod ids;
pub mod notifications;
pub mod scheduler;
pub mod storage;
pub mod text;
pub mod utils;
