//! The per-thread queue of turns that wait to be dispatched: the rows it is
//! stored in, the requests that change it, and the drain that starts the next
//! turn when a thread falls idle. Beside it stand the metrics that the process
//! shares.
//!
//! Everything here decides and computes. Where a decision needs outside work (a
//! database call, a lock, a message), a [`task::Task`] says what it waits for
//! and goes on when it is told what came back.
pub mod api;
pub mod contention;
pub mod course;
pub mod decoding;
pub mod discipline;
pub mod error;
pub mod metrics;
pub mod processor;
pub mod sqlite_metrics;
pub mod task;
pub mod thread_id;
pub mod thread_queued_turn;
pub mod utc_time;
pub mod warning;
