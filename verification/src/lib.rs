//! A filter-map adapter over fallible asynchronous sequences.
//!
//! The adapter owns an upstream sequence of `Result` items and a pure
//! callback that turns each successful item into a task whose eventual
//! result keeps a mapped value, drops the item, or fails.  The adapter
//! interleaves pulling from upstream with driving at most one in-flight
//! task, exposing the combination as a single fallible sequence.
//!
//! The state-machine decisions are verified here; an external scheduler
//! performs the actual polls and feeds the observed events back in.

pub mod adapter;
pub mod model;

pub use adapter::Advance;
pub use adapter::IdleStep;
pub use adapter::StreamPoll;
pub use adapter::TaskPoll;
pub use adapter::TaskStep;
pub use adapter::TryFilterMap;
