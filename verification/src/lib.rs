//! A resource-accounting wrapper around child-process execution.
//!
//! The library holds the verified half of a small `time`-like tool: parsing a
//! command line into a program name and its arguments, deciding the wrapper's
//! outcome from the child's exit status, converting and scaling the raw
//! resource counters the operating system reports, and rendering the timing
//! report. Process spawning, the monotonic clock and the resource-usage query
//! itself are operating-system calls and live with the binary around the
//! library, which hands their results in as plain values.

pub mod duration;
pub mod invocation;
pub mod outcome;
pub mod render;
pub mod run;
pub mod rusage;
