//! Decision core of a timeout-inspecting task combinator.
//!
//! The combinator wraps an asynchronous task together with a deadline
//! timer. It never cancels the task: when the deadline elapses before
//! the task completes, a one-shot callback fires — exactly once — and
//! the combinator keeps waiting for the task's real value, which it
//! hands on unchanged.
//!
//! This crate holds the verified part: the phase state machine that
//! guards the callback, and the per-advancement decision taken from
//! what the task and the timer reported. The surrounding executor
//! plumbing — polling the actual future and the actual timer — lives
//! outside, and feeds its observations in as plain values.

pub mod inspector;
pub mod phase;
