//! Verbosity levels of records and the logger-wide level filter.

use vstd::prelude::*;

verus! {

/// The verbosity level carried by a single log record.
#[derive(Clone, Copy, Debug, PartialEq, Eq, Structural)]
pub enum Level {
    /// Designates very serious errors.
    Error,
    /// Designates hazardous situations.
    Warn,
    /// Designates useful information.
    Info,
    /// Designates lower priority information.
    Debug,
    /// Designates very low priority, often extremely verbose, information.
    Trace,
}

/// The logger-wide threshold: a record is admitted iff its level does not
/// exceed the filter in the `Off < Error < ... < Trace` ordering.
#[derive(Clone, Copy, Debug, PartialEq, Eq, Structural)]
pub enum LevelFilter {
    /// Disables every record, including errors.
    Off,
    /// Admits errors only.
    Error,
    /// Admits warnings and errors.
    Warn,
    /// Admits informational records and above.
    Info,
    /// Admits debug records and above.
    Debug,
    /// Admits every record.
    Trace,
}

impl Level {
    /// Rank of the level in the verbosity ordering; `Error` is lowest.
    pub open spec fn as_int(self) -> int {
        match self {
            Level::Error => 1,
            Level::Warn => 2,
            Level::Info => 3,
            Level::Debug => 4,
            Level::Trace => 5,
        }
    }

    /// Rank of the level as an executable value.
    pub fn severity(&self) -> (r: u8)
        ensures
            r as int == self.as_int(),
    {
        match self {
            Level::Error => 1,
            Level::Warn => 2,
            Level::Info => 3,
            Level::Debug => 4,
            Level::Trace => 5,
        }
    }

    /// The string representation of the level.
    pub fn as_str(&self) -> (r: &'static str)
        ensures
            r@ == self.spec_str(),
    {
        match self {
            Level::Error => "ERROR",
            Level::Warn => "WARN",
            Level::Info => "INFO",
            Level::Debug => "DEBUG",
            Level::Trace => "TRACE",
        }
    }

    /// The string representation, at the specification level.
    pub open spec fn spec_str(self) -> Seq<char> {
        match self {
            Level::Error => "ERROR"@,
            Level::Warn => "WARN"@,
            Level::Info => "INFO"@,
            Level::Debug => "DEBUG"@,
            Level::Trace => "TRACE"@,
        }
    }

    /// The filter that admits exactly this level and the more severe ones.
    pub fn as_level_filter(self) -> (r: LevelFilter)
        ensures
            r.as_int() == self.as_int(),
    {
        match self {
            Level::Error => LevelFilter::Error,
            Level::Warn => LevelFilter::Warn,
            Level::Info => LevelFilter::Info,
            Level::Debug => LevelFilter::Debug,
            Level::Trace => LevelFilter::Trace,
        }
    }
}

impl LevelFilter {
    /// Rank of the filter; `Off` is 0 and admits nothing.
    pub open spec fn as_int(self) -> int {
        match self {
            LevelFilter::Off => 0,
            LevelFilter::Error => 1,
            LevelFilter::Warn => 2,
            LevelFilter::Info => 3,
            LevelFilter::Debug => 4,
            LevelFilter::Trace => 5,
        }
    }

    /// Rank of the filter as an executable value.
    pub fn severity(&self) -> (r: u8)
        ensures
            r as int == self.as_int(),
    {
        match self {
            LevelFilter::Off => 0,
            LevelFilter::Error => 1,
            LevelFilter::Warn => 2,
            LevelFilter::Info => 3,
            LevelFilter::Debug => 4,
            LevelFilter::Trace => 5,
        }
    }

    /// The string representation of the filter.
    pub fn as_str(&self) -> (r: &'static str)
        ensures
            self is Off ==> r@ == "OFF"@,
            !(self is Off) ==> exists|l: Level|
                l.as_int() == self.as_int() && r@ == l.spec_str(),
    {
        match self {
            LevelFilter::Off => "OFF",
            LevelFilter::Error => {
                proof {
                    assert(Level::Error.as_int() == self.as_int());
                }
                "ERROR"
            },
            LevelFilter::Warn => {
                proof {
                    assert(Level::Warn.as_int() == self.as_int());
                }
                "WARN"
            },
            LevelFilter::Info => {
                proof {
                    assert(Level::Info.as_int() == self.as_int());
                }
                "INFO"
            },
            LevelFilter::Debug => {
                proof {
                    assert(Level::Debug.as_int() == self.as_int());
                }
                "DEBUG"
            },
            LevelFilter::Trace => {
                proof {
                    assert(Level::Trace.as_int() == self.as_int());
                }
                "TRACE"
            },
        }
    }

    /// Whether a record of level `level` passes this filter.
    pub open spec fn spec_admits(self, level: Level) -> bool {
        level.as_int() <= self.as_int()
    }

    /// Executable admission test; `Off` admits nothing.
    pub fn admits(&self, level: Level) -> (r: bool)
        ensures
            r == self.spec_admits(level),
    {
        level.severity() <= self.severity()
    }
}

/// `Off` admits no level at all.
pub proof fn lemma_off_admits_nothing(level: Level)
    ensures
        !LevelFilter::Off.spec_admits(level),
{
}

} // verus!
