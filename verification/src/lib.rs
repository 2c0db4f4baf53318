//! Run a child command, watch its two output streams without blocking, and
//! enforce an idle timeout and a run timeout while forwarding bytes to one or
//! two sinks.

pub mod dur;
pub mod engine;
pub mod parse;
pub mod timeout;
