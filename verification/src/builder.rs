//! The logger builder: assembles handlers and configuration into a
//! running [`Logger`](crate::Logger).

use std::io::Write;

use crate::handler::{FileHandler, HandlerKind, StdHandler};
use crate::internal::{Logger, BUF_SIZE, MAX_BUF_SIZE};
use crate::level::LevelFilter;
use crate::GetLogs;
use vstd::prelude::*;

verus! {

/// The color settings used when printing to stdout/stderr.
#[derive(Clone, Copy, Debug, PartialEq, Eq, Structural)]
pub enum Colors {
    /// Color printing is always enabled.
    Enabled,
    /// Color printing is always disabled.
    Disabled,
    /// Color printing is automatic: colors are emitted only when the
    /// chosen stream is a terminal.
    Auto,
}

impl Default for Colors {
    /// The default behavior is to disable colors.
    fn default() -> (r: Self)
        ensures
            r == Colors::Disabled,
    {
        Colors::Disabled
    }
}

/// Relies on `std::io::stderr`: reports a missing log directory on the
/// error stream; nothing comes back.
#[verifier::external_body]
fn warn_no_log_dir() {
    let _ = writeln!(std::io::stderr(), "Failed to obtain application log directory");
}

/// Handler well-formedness carries over between equal handler lists.
proof fn lemma_handlers_wf_transfer(a: Seq<HandlerKind>, b: Seq<HandlerKind>)
    requires
        a == b,
        forall|i: int| 0 <= i < a.len() ==> (#[trigger] a[i]).wf(),
    ensures
        forall|i: int| 0 <= i < b.len() ==> (#[trigger] b[i]).wf(),
{
    assert forall|i: int| 0 <= i < b.len() implies (#[trigger] b[i]).wf() by {
        assert(b[i] == a[i]);
    }
}

/// The base logger builder/initializer.
///
/// Options are set by value-returning calls, handlers are appended in
/// order, and [`start`](Builder::start) hands the whole configuration
/// to a new [`Logger`].
pub struct Builder {
    pub(crate) colors: Colors,
    pub(crate) smart_stderr: bool,
    pub(crate) buf_size: Option<usize>,
    pub(crate) handlers: Vec<HandlerKind>,
    pub(crate) filter: LevelFilter,
}

impl Builder {
    /// The color policy, at the specification level.
    pub closed spec fn spec_colors(self) -> Colors {
        self.colors
    }

    /// The smart-stderr setting, at the specification level.
    pub closed spec fn spec_smart_stderr(self) -> bool {
        self.smart_stderr
    }

    /// The chosen command-queue capacity, if any.
    pub closed spec fn spec_buf_size(self) -> Option<usize> {
        self.buf_size
    }

    /// The handlers appended so far, in order.
    pub closed spec fn spec_handlers(self) -> Seq<HandlerKind> {
        self.handlers@
    }

    /// The initial level filter.
    pub closed spec fn spec_filter(self) -> LevelFilter {
        self.filter
    }

    /// Every appended handler satisfies its invariant and a chosen
    /// capacity lies in the accepted range.
    pub open spec fn wf(self) -> bool {
        &&& forall|i: int|
            0 <= i < self.spec_handlers().len() ==> (#[trigger] self.spec_handlers()[i]).wf()
        &&& match self.spec_buf_size() {
            Some(n) => 1 <= n <= MAX_BUF_SIZE,
            None => true,
        }
    }

    /// Creates a new instance of a logger builder.
    pub fn new() -> (r: Builder)
        ensures
            r.wf(),
            r.spec_colors() == Colors::Disabled,
            r.spec_smart_stderr(),
            r.spec_buf_size() is None,
            r.spec_handlers() == Seq::<HandlerKind>::empty(),
            r.spec_filter() == LevelFilter::Info,
    {
        Builder {
            colors: Colors::Disabled,
            smart_stderr: true,
            buf_size: None,
            handlers: Vec::new(),
            filter: LevelFilter::Info,
        }
    }

    /// Sets the colors state when logging to stdout/stderr.
    ///
    /// The default behavior is to disable colors.
    pub fn colors(self, state: Colors) -> (r: Self)
        requires
            self.wf(),
        ensures
            r.wf(),
            r.spec_colors() == state,
            r.spec_smart_stderr() == self.spec_smart_stderr(),
            r.spec_buf_size() == self.spec_buf_size(),
            r.spec_handlers() == self.spec_handlers(),
            r.spec_filter() == self.spec_filter(),
    {
        let mut this = self;
        this.colors = state;
        proof {
            lemma_handlers_wf_transfer(self.spec_handlers(), this.spec_handlers());
        }
        this
    }

    /// Sets the default level filter when initializing the logger.
    ///
    /// The default is `Info`.
    pub fn filter(self, filter: LevelFilter) -> (r: Self)
        requires
            self.wf(),
        ensures
            r.wf(),
            r.spec_filter() == filter,
            r.spec_colors() == self.spec_colors(),
            r.spec_smart_stderr() == self.spec_smart_stderr(),
            r.spec_buf_size() == self.spec_buf_size(),
            r.spec_handlers() == self.spec_handlers(),
    {
        let mut this = self;
        this.filter = filter;
        proof {
            lemma_handlers_wf_transfer(self.spec_handlers(), this.spec_handlers());
        }
        this
    }

    /// Enables or disables automatic redirection of error logs to
    /// stderr.
    ///
    /// The default for this flag is true.
    pub fn smart_stderr(self, flag: bool) -> (r: Self)
        requires
            self.wf(),
        ensures
            r.wf(),
            r.spec_smart_stderr() == flag,
            r.spec_colors() == self.spec_colors(),
            r.spec_buf_size() == self.spec_buf_size(),
            r.spec_handlers() == self.spec_handlers(),
            r.spec_filter() == self.spec_filter(),
    {
        let mut this = self;
        this.smart_stderr = flag;
        proof {
            lemma_handlers_wf_transfer(self.spec_handlers(), this.spec_handlers());
        }
        this
    }

    /// Sets the command-queue capacity, in commands.
    ///
    /// # Arguments
    ///
    /// * `buf_size`: the capacity; it must be positive and not absurd.
    pub fn buffer_size(self, buf_size: usize) -> (r: Self)
        requires
            self.wf(),
            1 <= buf_size <= MAX_BUF_SIZE,
        ensures
            r.wf(),
            r.spec_buf_size() == Some(buf_size),
            r.spec_colors() == self.spec_colors(),
            r.spec_smart_stderr() == self.spec_smart_stderr(),
            r.spec_handlers() == self.spec_handlers(),
            r.spec_filter() == self.spec_filter(),
    {
        let mut this = self;
        this.buf_size = Some(buf_size);
        proof {
            lemma_handlers_wf_transfer(self.spec_handlers(), this.spec_handlers());
        }
        this
    }

    /// Adds a new log handler.
    ///
    /// # Arguments
    ///
    /// * `handler`: the new handler to add.
    pub fn add_handler(self, handler: HandlerKind) -> (r: Self)
        requires
            self.wf(),
            handler.wf(),
        ensures
            r.wf(),
            r.spec_handlers() == self.spec_handlers().push(handler),
            r.spec_colors() == self.spec_colors(),
            r.spec_smart_stderr() == self.spec_smart_stderr(),
            r.spec_buf_size() == self.spec_buf_size(),
            r.spec_filter() == self.spec_filter(),
    {
        let mut this = self;
        this.handlers.push(handler);
        proof {
            assert forall|i: int|
                0 <= i < this.spec_handlers().len() implies (#[trigger] this.spec_handlers()[i]).wf() by {
                if i < self.spec_handlers().len() {
                    assert(this.spec_handlers()[i] == self.spec_handlers()[i]);
                } else {
                    assert(this.spec_handlers()[i] == handler);
                }
            }
        }
        this
    }

    /// Enables stdout logging: appends a std sink with the current
    /// color and smart-stderr settings.
    pub fn add_stdout(self) -> (r: Self)
        requires
            self.wf(),
        ensures
            r.wf(),
            r.spec_handlers().len() == self.spec_handlers().len() + 1,
            r.spec_handlers().drop_last() == self.spec_handlers(),
            ({
                let h = r.spec_handlers().last();
                match h {
                    HandlerKind::Std(s) => {
                        &&& s.spec_smart_stderr() == self.spec_smart_stderr()
                        &&& s.spec_colors() == self.spec_colors()
                        &&& s.lines() == Seq::<crate::handler::StdLine>::empty()
                    },
                    _ => false,
                }
            }),
            r.spec_colors() == self.spec_colors(),
            r.spec_smart_stderr() == self.spec_smart_stderr(),
            r.spec_buf_size() == self.spec_buf_size(),
            r.spec_filter() == self.spec_filter(),
    {
        let smart_stderr = self.smart_stderr;
        let colors = self.colors;
        let r = self.add_handler(HandlerKind::Std(StdHandler::new(smart_stderr, colors)));
        proof {
            assert(r.spec_handlers().drop_last() =~= self.spec_handlers());
        }
        r
    }

    /// Enables file logging under the directory the given provider
    /// names.
    ///
    /// The provider is anything implementing [`GetLogs`]; whatever it
    /// answers is handed to [`add_file_dir`](Builder::add_file_dir),
    /// which appends the sink or warns and drops it.
    pub fn add_file<T: GetLogs>(self, app: T) -> (r: Self)
        requires
            self.wf(),
        ensures
            r.wf(),
            r.spec_colors() == self.spec_colors(),
            r.spec_smart_stderr() == self.spec_smart_stderr(),
            r.spec_buf_size() == self.spec_buf_size(),
            r.spec_filter() == self.spec_filter(),
            r.spec_handlers() == self.spec_handlers() || (r.spec_handlers().len()
                == self.spec_handlers().len() + 1 && r.spec_handlers().drop_last()
                == self.spec_handlers() && match r.spec_handlers().last() {
                HandlerKind::File(f) => f.entries() == Seq::<
                    crate::handler::FileSinkEntry,
                >::empty(),
                _ => false,
            }),
    {
        let dir = app.get_logs();
        self.add_file_dir(dir)
    }

    /// Appends a file sink for a named log directory, or applies the
    /// directory-unavailable policy.
    ///
    /// On `Some(dir)` exactly one empty file sink rooted at `dir` is
    /// appended after the existing handlers; on `None` a warning goes
    /// to stderr and the configuration is unchanged.
    pub fn add_file_dir(self, dir: Option<String>) -> (r: Self)
        requires
            self.wf(),
        ensures
            r.wf(),
            r.spec_colors() == self.spec_colors(),
            r.spec_smart_stderr() == self.spec_smart_stderr(),
            r.spec_buf_size() == self.spec_buf_size(),
            r.spec_filter() == self.spec_filter(),
            dir matches Some(d) ==> {
                &&& r.spec_handlers().len() == self.spec_handlers().len() + 1
                &&& r.spec_handlers().drop_last() == self.spec_handlers()
                &&& match r.spec_handlers().last() {
                    HandlerKind::File(f) => f.spec_path() == d@ && f.entries() == Seq::<
                        crate::handler::FileSinkEntry,
                    >::empty(),
                    _ => false,
                }
            },
            dir is None ==> r.spec_handlers() == self.spec_handlers(),
    {
        match dir {
            Some(logs) => {
                let r = self.add_handler(HandlerKind::File(FileHandler::new(logs)));
                proof {
                    assert(r.spec_handlers().drop_last() =~= self.spec_handlers());
                }
                r
            },
            None => {
                warn_no_log_dir();
                self
            },
        }
    }

    /// Initializes the logger with this configuration: the dispatch
    /// side is built, every handler is installed in order, and the
    /// returned [`Logger`] is the enabled handle.
    pub fn start(self) -> (r: Logger)
        requires
            self.wf(),
        ensures
            r.wf(),
            r.spec_filter() == self.spec_filter(),
            r.queued() == Seq::<crate::internal::Command>::empty(),
            r.spec_capacity() == match self.spec_buf_size() {
                Some(n) => n,
                None => BUF_SIZE as usize,
            },
            r.handlers().len() == self.spec_handlers().len(),
            forall|i: int|
                0 <= i < self.spec_handlers().len() ==> #[trigger] HandlerKind::install_rel(
                    self.spec_handlers()[i],
                    r.handlers()[i],
                    true,
                ),
            r.spec_enable_stdout(),
    {
        Logger::new(self)
    }
}

impl Builder {
    /// Hands the configuration out as plain parts; used when the
    /// logger is built.
    pub(crate) fn take(self) -> (r: (Colors, bool, Option<usize>, Vec<HandlerKind>, LevelFilter))
        ensures
            r.0 == self.spec_colors(),
            r.1 == self.spec_smart_stderr(),
            r.2 == self.spec_buf_size(),
            r.3@ == self.spec_handlers(),
            r.4 == self.spec_filter(),
    {
        (self.colors, self.smart_stderr, self.buf_size, self.handlers, self.filter)
    }
}

impl Default for Builder {
    /// The default configuration: colors disabled, smart stderr on, no
    /// explicit capacity, no handlers, filter `Info`.
    fn default() -> (r: Self)
        ensures
            r.wf(),
            r.spec_colors() == Colors::Disabled,
            r.spec_smart_stderr(),
            r.spec_buf_size() is None,
            r.spec_handlers() == Seq::<HandlerKind>::empty(),
            r.spec_filter() == LevelFilter::Info,
    {
        Builder::new()
    }
}

} // verus!
