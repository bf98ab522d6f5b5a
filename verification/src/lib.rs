//! A small library around one idea: repeating a stateful, side-effecting
//! unit of work a fixed number of times, in order, on the calling thread.
//!
//! The unit of work owns a [`counter::Counter`] exclusively; each invocation
//! adds one to it and reports the new value. The invoker
//! ([`invoker::repeat_function_mutable`]) drives such a unit of work a given
//! number of times and guarantees the counter's final value and the exact
//! sequence of reported values.

pub mod arith;
pub mod counter;
pub mod invoker;
pub mod logging;
pub mod templating;
