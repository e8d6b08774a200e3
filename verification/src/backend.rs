//! The legacy backend face of the terminal sink: target and level
//! only, without timestamps.

use crate::builder::Colors;
use crate::handler::{StdLine, Stream};
use crate::level::Level;
use vstd::prelude::*;
use vstd::string::StringExecFns;

verus! {

/// A sink behind the legacy backend face.
pub trait Backend {
    /// The error a write can end in.
    type Error;

    /// Writes one already-formatted message of a target at a level.
    fn write(&mut self, target: &str, msg: &str, level: Level) -> Result<(), Self::Error>;

    /// Persists buffered output.
    fn flush(&mut self) -> Result<(), Self::Error>;
}

/// The error that never occurs.
pub struct DummyError();

/// The legacy line layout: `<TARGET> [LEVEL] MSG`.
pub open spec fn spec_backend_text(target: Seq<char>, msg: Seq<char>, level: Level) -> Seq<char> {
    "<"@ + target + "> ["@ + level.spec_str() + "] "@ + msg
}

/// The legacy terminal backend: it lays records out as
/// `<TARGET> [LEVEL] MSG` and routes errors to stderr under the
/// smart-stderr rule.
pub struct StdBackend {
    smart_stderr: bool,
    colors: Colors,
    out: Vec<StdLine>,
}

impl StdBackend {
    /// The smart-stderr setting, at the specification level.
    pub closed spec fn spec_smart_stderr(self) -> bool {
        self.smart_stderr
    }

    /// The color policy, at the specification level.
    pub closed spec fn spec_colors(self) -> Colors {
        self.colors
    }

    /// The lines written so far, oldest first.
    pub closed spec fn lines(self) -> Seq<StdLine> {
        self.out@
    }

    /// Creates the backend.
    pub fn new(smart_stderr: bool, colors: Colors) -> (r: StdBackend)
        ensures
            r.spec_smart_stderr() == smart_stderr,
            r.spec_colors() == colors,
            r.lines() == Seq::<StdLine>::empty(),
    {
        StdBackend { smart_stderr, colors, out: Vec::new() }
    }

    /// The stream a record of level `level` goes to.
    pub fn get_stream(&self, level: Level) -> (r: Stream)
        ensures
            (r is Stderr) == crate::handler::spec_is_stderr(self.spec_smart_stderr(), level),
    {
        match self.smart_stderr {
            false => Stream::Stdout,
            true => match level {
                Level::Error => Stream::Stderr,
                _ => Stream::Stdout,
            },
        }
    }
}

impl StdBackend {
    /// Hands out the buffered lines, oldest first, and leaves the
    /// buffer empty.
    pub fn take_lines(&mut self) -> (r: Vec<StdLine>)
        ensures
            r@ == old(self).lines(),
            final(self).lines() == Seq::<StdLine>::empty(),
            final(self).spec_smart_stderr() == old(self).spec_smart_stderr(),
            final(self).spec_colors() == old(self).spec_colors(),
    {
        let mut r: Vec<StdLine> = Vec::new();
        core::mem::swap(&mut self.out, &mut r);
        r
    }
}

impl Backend for StdBackend {
    type Error = DummyError;

    /// Lays out one message and buffers the finished line; never
    /// fails. The legacy face does not probe the terminal, so the
    /// `Auto` color policy resolves to plain output.
    fn write(&mut self, target: &str, msg: &str, level: Level) -> (r: Result<(), DummyError>)
        ensures
            r is Ok,
            final(self).spec_smart_stderr() == old(self).spec_smart_stderr(),
            final(self).spec_colors() == old(self).spec_colors(),
            final(self).lines().len() == old(self).lines().len() + 1,
            final(self).lines().drop_last() == old(self).lines(),
            ({
                let l = final(self).lines().last();
                &&& l.text@ == spec_backend_text(target@, msg@, level)
                &&& l.stderr == crate::handler::spec_is_stderr(
                    old(self).spec_smart_stderr(),
                    level,
                )
                &&& l.colored == crate::handler::spec_use_color(old(self).spec_colors(), false)
                &&& l.level == level
            }),
    {
        let is_err = match self.get_stream(level) {
            Stream::Stderr => true,
            Stream::Stdout => false,
        };
        let mut text = String::from_str("<");
        text.append(target);
        text.append("> [");
        text.append(level.as_str());
        text.append("] ");
        text.append(msg);
        let colored = match self.colors {
            Colors::Disabled => false,
            Colors::Enabled => true,
            Colors::Auto => false,
        };
        proof {
            assert(text@ =~= spec_backend_text(target@, msg@, level));
        }
        self.out.push(StdLine { stderr: is_err, colored, level, text });
        proof {
            assert(self.out@.drop_last() =~= old(self).out@);
        }
        Ok(())
    }

    /// The backend holds no buffered file state; never fails.
    fn flush(&mut self) -> (r: Result<(), DummyError>)
        ensures
            r is Ok,
            *final(self) == *old(self),
    {
        Ok(())
    }
}

} // verus!
