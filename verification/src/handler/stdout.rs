//! The terminal sink: routes records to stdout or stderr and lays out
//! their text, with optional coloring.
//!
//! The handler buffers finished lines as [`StdLine`] values; the thin
//! runtime outside the library drains them and performs the actual
//! terminal writes. Every routing and layout decision — stream choice,
//! color choice, and the exact text — is stated in the contracts here.

use std::io::IsTerminal;

use crate::builder::Colors;
use crate::handler::Flag;
use crate::level::Level;
use crate::log_msg::LogMsg;
use crate::timestamp::{format_time_str, spec_time_str, Timestamp};
use crate::util::{spec_module, spec_target};
use vstd::prelude::*;
use vstd::string::StringExecFns;
use vstd::utf8::decode_utf8;

verus! {

/// One of the two standard output streams.
pub enum Stream {
    /// Standard output.
    Stdout,
    /// Standard error.
    Stderr,
}

/// Relies on `std::io::stdout` and `std::io::IsTerminal::is_terminal`:
/// whether stdout is a terminal depends on the environment, so nothing
/// is promised of the result.
#[verifier::external_body]
fn stdout_isatty() -> bool {
    std::io::stdout().is_terminal()
}

/// Relies on `std::io::stderr` and `std::io::IsTerminal::is_terminal`:
/// whether stderr is a terminal depends on the environment, so nothing
/// is promised of the result.
#[verifier::external_body]
fn stderr_isatty() -> bool {
    std::io::stderr().is_terminal()
}

impl Stream {
    /// True when this stream is attached to a terminal.
    pub fn isatty(&self) -> bool {
        match self {
            Stream::Stdout => stdout_isatty(),
            Stream::Stderr => stderr_isatty(),
        }
    }
}

/// The color a level is shown in when colors are enabled; every level
/// tag is also shown bold.
pub enum LevelColor {
    /// Errors are red.
    Red,
    /// Warnings are yellow.
    Yellow,
    /// Informational records are green.
    Green,
    /// Debug records are blue.
    Blue,
    /// Trace records are cyan.
    Cyan,
}

/// The color of a level's tag: red for errors, yellow for warnings,
/// green for information, blue for debug, cyan for trace.
pub fn color(level: Level) -> (r: LevelColor)
    ensures
        match level {
            Level::Error => r is Red,
            Level::Warn => r is Yellow,
            Level::Info => r is Green,
            Level::Debug => r is Blue,
            Level::Trace => r is Cyan,
        },
{
    match level {
        Level::Error => LevelColor::Red,
        Level::Warn => LevelColor::Yellow,
        Level::Info => LevelColor::Green,
        Level::Debug => LevelColor::Blue,
        Level::Trace => LevelColor::Cyan,
    }
}

/// One finished line of terminal output.
pub struct StdLine {
    /// True when the line goes to stderr, false for stdout.
    pub stderr: bool,
    /// True when the line is to be written with colors.
    pub colored: bool,
    /// The level of the record the line was made from; it picks the
    /// color of the level tag when `colored` is set.
    pub level: Level,
    /// The text of the line, without the trailing newline.
    pub text: String,
}

/// Whether the error stream is chosen: only for `Error` records, and
/// only under the smart-stderr rule.
pub open spec fn spec_is_stderr(smart_stderr: bool, level: Level) -> bool {
    smart_stderr && level is Error
}

/// Whether colors are emitted, given the policy and whether the chosen
/// stream is a terminal.
pub open spec fn spec_use_color(colors: Colors, tty: bool) -> bool {
    match colors {
        Colors::Disabled => false,
        Colors::Enabled => true,
        Colors::Auto => tty,
    }
}

/// The terminal line layout:
/// `<TARGET> [LEVEL] TIME MODULE: BODY`, with the time formatted from
/// the (local) instant `ts`.
pub open spec fn spec_std_text(msg: LogMsg, ts: Timestamp) -> Seq<char> {
    "<"@ + spec_target(msg.spec_location().spec_mod_path()) + "> ["@ + msg.spec_level().spec_str()
        + "] "@ + spec_time_str(ts) + " "@ + spec_module(msg.spec_location().spec_mod_path())
        + ": "@ + decode_utf8(msg.body())
}

/// How one write step moves the std sink from state `a` to state `b`:
/// nothing changes when stdout is disabled; otherwise exactly one line
/// is buffered, routed and colored by the decision table, its text in
/// the terminal layout for some local rendering of the record's instant.
pub open spec fn spec_std_write_rel(a: StdHandler, b: StdHandler, msg: LogMsg) -> bool {
    &&& StdHandler::same_config(b, a)
    &&& if !a.spec_enable() {
        b.lines() == a.lines()
    } else {
        &&& b.lines().len() == a.lines().len() + 1
        &&& b.lines().drop_last() == a.lines()
        &&& {
            let l = b.lines().last();
            &&& l.stderr == spec_is_stderr(a.spec_smart_stderr(), msg.spec_level())
            &&& l.colored == spec_use_color(
                a.spec_colors(),
                if l.stderr {
                    a.spec_tty_err()
                } else {
                    a.spec_tty_out()
                },
            )
            &&& l.level == msg.spec_level()
            &&& exists|ts: Timestamp|
                ts.wf() && ts.spec_unix_seconds() == msg.spec_time().spec_unix_seconds()
                    && l.text@ == spec_std_text(msg, ts)
        }
    }
}

/// Lays out one record in the terminal line layout
/// `<TARGET> [LEVEL] TIME MODULE: BODY`, with the record's instant
/// moved to the machine's local offset when one can be determined.
pub fn render_std_text(msg: &LogMsg) -> (r: String)
    requires
        msg.wf(),
    ensures
        exists|ts: Timestamp|
            ts.wf() && ts.spec_unix_seconds() == msg.spec_time().spec_unix_seconds() && r@
                == spec_std_text(*msg, ts),
{
    let local = msg.time().to_local();
    let time_str = format_time_str(&local);
    let (target, module) = msg.location().get_target_module();
    let mut text = String::from_str("<");
    text.append(target);
    text.append("> [");
    text.append(msg.level().as_str());
    text.append("] ");
    text.append(time_str.as_str());
    text.append(" ");
    text.append(module);
    text.append(": ");
    text.append(msg.msg());
    proof {
        assert(text@ =~= spec_std_text(*msg, local));
    }
    text
}

/// A simple stdout/stderr handler which redirects error messages to
/// stderr and other messages to stdout.
pub struct StdHandler {
    smart_stderr: bool,
    colors: Colors,
    enable: Flag,
    tty_out: bool,
    tty_err: bool,
    out: Vec<StdLine>,
}

impl StdHandler {
    /// The smart-stderr setting, at the specification level.
    pub closed spec fn spec_smart_stderr(self) -> bool {
        self.smart_stderr
    }

    /// The color policy, at the specification level.
    pub closed spec fn spec_colors(self) -> Colors {
        self.colors
    }

    /// The stdout-enable flag, at the specification level.
    pub closed spec fn spec_enable(self) -> bool {
        self.enable.spec_enabled()
    }

    /// Whether stdout was a terminal when the handler was installed.
    pub closed spec fn spec_tty_out(self) -> bool {
        self.tty_out
    }

    /// Whether stderr was a terminal when the handler was installed.
    pub closed spec fn spec_tty_err(self) -> bool {
        self.tty_err
    }

    /// The lines written so far and not yet drained, oldest first.
    pub closed spec fn lines(self) -> Seq<StdLine> {
        self.out@
    }

    /// The configuration fields of `a` and `b` agree; only the buffered
    /// lines may differ.
    pub open spec fn same_config(a: StdHandler, b: StdHandler) -> bool {
        &&& a.spec_smart_stderr() == b.spec_smart_stderr()
        &&& a.spec_colors() == b.spec_colors()
        &&& a.spec_enable() == b.spec_enable()
        &&& a.spec_tty_out() == b.spec_tty_out()
        &&& a.spec_tty_err() == b.spec_tty_err()
    }

    /// Creates a new [`StdHandler`]. Stdout starts enabled; the
    /// terminal probes run when the handler is installed.
    ///
    /// # Arguments
    ///
    /// * `smart_stderr`: true to redirect error logs to stderr.
    /// * `colors`: the printing color policy.
    pub fn new(smart_stderr: bool, colors: Colors) -> (r: StdHandler)
        ensures
            r.spec_smart_stderr() == smart_stderr,
            r.spec_colors() == colors,
            r.spec_enable(),
            r.lines() == Seq::<StdLine>::empty(),
    {
        StdHandler {
            smart_stderr,
            colors,
            enable: Flag::new(true),
            tty_out: false,
            tty_err: false,
            out: Vec::new(),
        }
    }

    /// The stream a record of level `level` goes to.
    pub fn get_stream(&self, level: Level) -> (r: Stream)
        ensures
            (r is Stderr) == spec_is_stderr(self.spec_smart_stderr(), level),
    {
        match self.smart_stderr {
            false => Stream::Stdout,
            true => match level {
                Level::Error => Stream::Stderr,
                _ => Stream::Stdout,
            },
        }
    }

    /// Captures the stdout-enable flag and probes both streams for
    /// terminal-ness; the probe results depend on the environment.
    pub fn install(&mut self, enable_stdout: &Flag)
        ensures
            final(self).spec_smart_stderr() == old(self).spec_smart_stderr(),
            final(self).spec_colors() == old(self).spec_colors(),
            final(self).spec_enable() == enable_stdout.spec_enabled(),
            final(self).lines() == old(self).lines(),
    {
        self.enable = *enable_stdout;
        self.tty_out = stdout_isatty();
        self.tty_err = stderr_isatty();
    }

    /// Sets whether writing to the standard streams is allowed.
    pub fn set_enabled(&mut self, flag: bool)
        ensures
            final(self).spec_enable() == flag,
            final(self).spec_smart_stderr() == old(self).spec_smart_stderr(),
            final(self).spec_colors() == old(self).spec_colors(),
            final(self).spec_tty_out() == old(self).spec_tty_out(),
            final(self).spec_tty_err() == old(self).spec_tty_err(),
            final(self).lines() == old(self).lines(),
    {
        self.enable.set(flag);
    }

    /// Lays out one record and buffers the finished line, unless stdout
    /// is disabled, in which case the record is skipped entirely.
    ///
    /// The text layout is `<TARGET> [LEVEL] TIME MODULE: BODY` where the
    /// time is the record's instant moved to the machine's local offset
    /// when one can be determined, else kept in UTC.
    pub fn write(&mut self, msg: &LogMsg)
        requires
            msg.wf(),
        ensures
            spec_std_write_rel(*old(self), *final(self), *msg),
    {
        if !self.enable.is_enabled() {
            return ;
        }
        let stream = self.get_stream(msg.level());
        let is_err = match stream {
            Stream::Stderr => true,
            Stream::Stdout => false,
        };
        let tty = if is_err {
            self.tty_err
        } else {
            self.tty_out
        };
        let use_color = match self.colors {
            Colors::Disabled => false,
            Colors::Enabled => true,
            Colors::Auto => tty,
        };
        let text = render_std_text(msg);
        let line = StdLine { stderr: is_err, colored: use_color, level: msg.level(), text };
        self.out.push(line);
        proof {
            assert(self.out@.drop_last() =~= old(self).out@);
        }
    }

    /// The std sink holds no buffered file state: flushing changes
    /// nothing.
    pub fn flush(&mut self)
        ensures
            *final(self) == *old(self),
    {
    }

    /// Hands out the buffered lines, oldest first, and leaves the
    /// buffer empty.
    pub fn take_lines(&mut self) -> (r: Vec<StdLine>)
        ensures
            r@ == old(self).lines(),
            final(self).lines() == Seq::<StdLine>::empty(),
            StdHandler::same_config(*final(self), *old(self)),
    {
        let mut r: Vec<StdLine> = Vec::new();
        core::mem::swap(&mut self.out, &mut r);
        r
    }
}

} // verus!
