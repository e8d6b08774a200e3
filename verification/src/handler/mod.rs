//! The log handler system, with the built-in handlers.
//!
//! A handler is a sink: it is installed once on the dispatch side,
//! receives every admitted record through `write` in dispatch order, and
//! is told to persist buffered output on `flush`. The built-in handlers
//! model their observable output as data, so that every formatting and
//! routing decision is stated in their contracts; the operating-system
//! edge that carries that output to a terminal or a file stands outside
//! the library.

mod file;
mod log_queue;
mod stdout;

use crate::log_msg::LogMsg;
use vstd::prelude::*;

pub use file::{entry_index, file_obs_eq, lemma_entry_index_correct, render_file_text, spec_file_flush_rel, spec_file_text, spec_file_write_rel, FileHandler, FileSinkEntry};
pub use log_queue::{spec_queue_write_rel, LogQueue, LogQueueHandler};
pub use stdout::{color, render_std_text, spec_is_stderr, spec_std_text, spec_std_write_rel, spec_use_color, LevelColor, StdHandler, StdLine, Stream};

verus! {

/// A dynamic boolean flag.
///
/// This is the sequential model of the flag the handle and the std sink
/// share: the dispatch side reads the value the owner last set.
#[derive(Clone, Copy, Debug, PartialEq, Eq, Structural)]
pub struct Flag {
    enabled: bool,
}

impl Flag {
    /// The current value, at the specification level.
    pub closed spec fn spec_enabled(self) -> bool {
        self.enabled
    }

    /// Creates a new flag.
    ///
    /// # Arguments
    ///
    /// * `initial`: the initial value of this flag.
    pub fn new(initial: bool) -> (r: Self)
        ensures
            r.spec_enabled() == initial,
    {
        Self { enabled: initial }
    }

    /// Returns true if this flag is ON, false otherwise.
    pub fn is_enabled(&self) -> (r: bool)
        ensures
            r == self.spec_enabled(),
    {
        self.enabled
    }

    /// Sets this flag.
    pub fn set(&mut self, flag: bool)
        ensures
            final(self).spec_enabled() == flag,
    {
        self.enabled = flag;
    }
}

/// The main handler trait.
///
/// The built-in handlers implement it; a sink of the application's own
/// can follow the same shape outside the library.
pub trait Handler {
    /// The handler's own invariant; every operation keeps it.
    spec fn inv(&self) -> bool;

    /// Called once when the handler is installed on the dispatch side,
    /// before the first write.
    ///
    /// # Arguments
    ///
    /// * `enable_stdout`: flag telling whether printing to stdout is
    ///   allowed right now.
    fn install(&mut self, enable_stdout: &Flag)
        requires
            old(self).inv(),
        ensures
            final(self).inv(),
    ;

    /// Called for every admitted record, in dispatch order.
    ///
    /// # Arguments
    ///
    /// * `msg`: the log message which was emitted.
    fn write(&mut self, msg: &LogMsg)
        requires
            old(self).inv(),
            msg.wf(),
        ensures
            final(self).inv(),
    ;

    /// Called on flush commands and during orderly shutdown.
    fn flush(&mut self)
        requires
            old(self).inv(),
        ensures
            final(self).inv(),
    ;
}

/// One of the built-in handlers, as a closed union so that the dispatch
/// loop can hold a mixed, ordered list of them by value.
pub enum HandlerKind {
    /// Writes to stdout or stderr.
    Std(StdHandler),
    /// Writes per-target log files.
    File(FileHandler),
    /// Force-pushes every record into a bounded capture queue.
    Queue(LogQueueHandler),
}

impl HandlerKind {
    /// The handler's own invariant; only the capture sink carries one.
    pub open spec fn wf(self) -> bool {
        match self {
            HandlerKind::Queue(q) => q.wf(),
            _ => true,
        }
    }

    /// How one write step moves a handler from state `a` to state `b`:
    /// the kind is kept and the kind's own write relation holds.
    pub open spec fn write_rel(a: HandlerKind, b: HandlerKind, msg: LogMsg) -> bool {
        match (a, b) {
            (HandlerKind::Std(x), HandlerKind::Std(y)) => spec_std_write_rel(x, y, msg),
            (HandlerKind::File(x), HandlerKind::File(y)) => spec_file_write_rel(x, y, msg),
            (HandlerKind::Queue(x), HandlerKind::Queue(y)) => spec_queue_write_rel(x, y, msg),
            _ => false,
        }
    }

    /// How one flush step moves a handler from state `a` to state `b`:
    /// only the file sink changes, moving its pending lines to their
    /// flushed files.
    pub open spec fn flush_rel(a: HandlerKind, b: HandlerKind) -> bool {
        match (a, b) {
            (HandlerKind::Std(x), HandlerKind::Std(y)) => y == x,
            (HandlerKind::File(x), HandlerKind::File(y)) => spec_file_flush_rel(x, y),
            (HandlerKind::Queue(x), HandlerKind::Queue(y)) => y == x,
            _ => false,
        }
    }

    /// How installing moves a handler from state `a` to state `b`: the
    /// std sink captures the stdout flag (and probes its terminals, with
    /// an environment-chosen outcome); the others are unchanged.
    pub open spec fn install_rel(a: HandlerKind, b: HandlerKind, enable_stdout: bool) -> bool {
        match (a, b) {
            (HandlerKind::Std(x), HandlerKind::Std(y)) => {
                &&& y.spec_smart_stderr() == x.spec_smart_stderr()
                &&& y.spec_colors() == x.spec_colors()
                &&& y.spec_enable() == enable_stdout
                &&& y.lines() == x.lines()
            },
            (HandlerKind::File(x), HandlerKind::File(y)) => y == x,
            (HandlerKind::Queue(x), HandlerKind::Queue(y)) => y == x,
            _ => false,
        }
    }

    /// How toggling the stdout flag moves a handler from `a` to `b`:
    /// only the std sink's enable flag changes.
    pub open spec fn set_stdout_rel(a: HandlerKind, b: HandlerKind, flag: bool) -> bool {
        match (a, b) {
            (HandlerKind::Std(x), HandlerKind::Std(y)) => {
                &&& y.spec_smart_stderr() == x.spec_smart_stderr()
                &&& y.spec_colors() == x.spec_colors()
                &&& y.spec_enable() == flag
                &&& y.spec_tty_out() == x.spec_tty_out()
                &&& y.spec_tty_err() == x.spec_tty_err()
                &&& y.lines() == x.lines()
            },
            (HandlerKind::File(x), HandlerKind::File(y)) => y == x,
            (HandlerKind::Queue(x), HandlerKind::Queue(y)) => y == x,
            _ => false,
        }
    }

    /// Dispatches one record to this handler.
    pub fn write(&mut self, msg: &LogMsg)
        requires
            old(self).wf(),
            msg.wf(),
        ensures
            final(self).wf(),
            HandlerKind::write_rel(*old(self), *final(self), *msg),
    {
        match self {
            HandlerKind::Std(h) => h.write(msg),
            HandlerKind::File(h) => h.write(msg),
            HandlerKind::Queue(h) => h.write(msg),
        }
    }

    /// Dispatches a flush to this handler.
    pub fn flush(&mut self)
        requires
            old(self).wf(),
        ensures
            final(self).wf(),
            HandlerKind::flush_rel(*old(self), *final(self)),
    {
        match self {
            HandlerKind::Std(h) => h.flush(),
            HandlerKind::File(h) => h.flush(),
            HandlerKind::Queue(h) => h.flush(),
        }
    }

    /// Installs this handler, handing it the stdout flag.
    pub fn install(&mut self, enable_stdout: &Flag)
        requires
            old(self).wf(),
        ensures
            final(self).wf(),
            HandlerKind::install_rel(*old(self), *final(self), enable_stdout.spec_enabled()),
    {
        match self {
            HandlerKind::Std(h) => h.install(enable_stdout),
            HandlerKind::File(_) => (),
            HandlerKind::Queue(_) => (),
        }
    }

    /// Forwards a new stdout-enable value to this handler.
    pub fn set_stdout(&mut self, flag: bool)
        requires
            old(self).wf(),
        ensures
            final(self).wf(),
            HandlerKind::set_stdout_rel(*old(self), *final(self), flag),
    {
        match self {
            HandlerKind::Std(h) => h.set_enabled(flag),
            HandlerKind::File(_) => (),
            HandlerKind::Queue(_) => (),
        }
    }

    /// Pops the oldest captured record when this is the capture sink.
    pub fn pop_captured(&mut self) -> (r: Option<LogMsg>)
        requires
            old(self).wf(),
        ensures
            final(self).wf(),
            match *old(self) {
                HandlerKind::Queue(q) => match *final(self) {
                    HandlerKind::Queue(p) => {
                        &&& p.spec_capacity() == q.spec_capacity()
                        &&& if q.records().len() == 0 {
                            r is None && p.records() == q.records()
                        } else {
                            (r matches Some(v) && v == q.records()[0]) && p.records()
                                == q.records().drop_first()
                        }
                    },
                    _ => false,
                },
                _ => r is None && *final(self) == *old(self),
            },
    {
        match self {
            HandlerKind::Queue(h) => h.pop(),
            _ => None,
        }
    }

    /// Clears the captured records when this is the capture sink.
    pub fn clear_captured(&mut self)
        requires
            old(self).wf(),
        ensures
            final(self).wf(),
            match *old(self) {
                HandlerKind::Queue(q) => match *final(self) {
                    HandlerKind::Queue(p) => p.spec_capacity() == q.spec_capacity() && p.records()
                        == Seq::<LogMsg>::empty(),
                    _ => false,
                },
                _ => *final(self) == *old(self),
            },
    {
        match self {
            HandlerKind::Queue(h) => h.clear(),
            _ => (),
        }
    }

    /// The handlers `a` and `b` agree observably: they are of one kind
    /// and their sink state reads the same.
    pub open spec fn obs_eq(a: HandlerKind, b: HandlerKind) -> bool {
        match (a, b) {
            (HandlerKind::Std(x), HandlerKind::Std(y)) => y == x,
            (HandlerKind::File(x), HandlerKind::File(y)) => file_obs_eq(x, y),
            (HandlerKind::Queue(x), HandlerKind::Queue(y)) => y == x,
            _ => false,
        }
    }

    /// True when this is the capture sink.
    pub fn is_queue(&self) -> (r: bool)
        ensures
            r == (self is Queue),
    {
        match self {
            HandlerKind::Queue(_) => true,
            _ => false,
        }
    }
}

impl Handler for StdHandler {
    /// The terminal sink needs no extra invariant.
    open spec fn inv(&self) -> bool {
        true
    }

    fn install(&mut self, enable_stdout: &Flag) {
        StdHandler::install(self, enable_stdout)
    }

    fn write(&mut self, msg: &LogMsg) {
        StdHandler::write(self, msg)
    }

    fn flush(&mut self) {
        StdHandler::flush(self)
    }
}

impl Handler for FileHandler {
    /// The file sink needs no extra invariant.
    open spec fn inv(&self) -> bool {
        true
    }

    fn install(&mut self, _enable_stdout: &Flag) {
    }

    fn write(&mut self, msg: &LogMsg) {
        FileHandler::write(self, msg)
    }

    fn flush(&mut self) {
        FileHandler::flush(self)
    }
}

impl Handler for LogQueueHandler {
    /// The capture sink's queue stays within its capacity.
    open spec fn inv(&self) -> bool {
        self.wf()
    }

    fn install(&mut self, _enable_stdout: &Flag) {
    }

    fn write(&mut self, msg: &LogMsg) {
        LogQueueHandler::write(self, msg)
    }

    fn flush(&mut self) {
        LogQueueHandler::flush(self)
    }
}

} // verus!
