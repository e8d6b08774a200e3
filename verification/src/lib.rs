//! An asynchronous, multi-sink application logging framework core.
//!
//! Records are fixed-capacity [`LogMsg`] values carrying a source
//! [`Location`], a timestamp, a [`Level`] and a UTF-8 body. A
//! [`Builder`] assembles a set of handlers (terminal, per-target files,
//! in-memory capture queue) into a [`Logger`], which admits records
//! against a [`LevelFilter`], queues them as commands on a bounded
//! ring, and dispatches them to every handler in order.
//!
//! This crate is the verified core of the pipeline: the record and
//! queue data structures, the admission and dispatch rules, and the
//! exact text layout of every sink. The operating-system edges —
//! threads, terminal and file I/O, clock and time-zone lookups — stand
//! behind a small set of trusted wrappers or outside the library.

use vstd::prelude::*;

pub mod backend;
mod builder;
pub mod engine;
pub mod field;
pub mod handler;
mod internal;
mod level;
mod log_msg;
pub mod logger;
pub mod profiler;
mod ring;
pub mod timestamp;
pub mod trace;
pub mod util;

pub use builder::{Builder, Colors};
pub use internal::{Command, Logger, Thread, BUF_SIZE, MAX_BUF_SIZE};
pub use level::{Level, LevelFilter};
pub use log_msg::{LogMsg, LOG_MSG_SIZE};
pub use ring::RingBuffer;
pub use util::Location;
pub use timestamp::Timestamp;

verus! {

/// Gets a log directory from a value that can name one.
pub trait GetLogs {
    /// Gets the log directory as a path string, or `None` when no
    /// directory could be computed.
    fn get_logs(self) -> Option<String>;
}

impl<'a> GetLogs for &'a str {
    /// The string itself names the directory.
    fn get_logs(self) -> (r: Option<String>)
        ensures
            r matches Some(s) && s@ == self@,
    {
        Some(self.to_owned())
    }
}

impl<'a> GetLogs for &'a String {
    /// The string itself names the directory.
    fn get_logs(self) -> (r: Option<String>)
        ensures
            r matches Some(s) && s@ == self@,
    {
        Some(self.as_str().to_owned())
    }
}

/// Represents a logger guard.
///
/// Once this guard is released, messages are no longer captured.
pub struct Guard;

/// Runs a closure in scope of a logger configuration, shuts the logger
/// down in an orderly way, and returns the closure's result.
pub fn with_logger<R, F: FnOnce() -> R>(logger: Builder, f: F) -> (r: R)
    requires
        logger.wf(),
        call_requires(f, ()),
    ensures
        call_ensures(f, (), r),
{
    let l = logger.start();
    let r = f();
    let _ = l.shutdown();
    r
}

} // verus!
