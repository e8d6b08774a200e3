//! The call-site descriptor and the logging capability.

use crate::field::Field;
use crate::level::Level;
use crate::util::Location;
use vstd::prelude::*;

verus! {

/// A static description of one logging call site: where it stands and
/// at which level it fires.
pub struct Callsite {
    location: Location,
    level: Level,
}

impl Callsite {
    /// The location, at the specification level.
    pub closed spec fn spec_location(self) -> Location {
        self.location
    }

    /// The level, at the specification level.
    pub closed spec fn spec_level(self) -> Level {
        self.level
    }

    /// Creates a call-site descriptor.
    pub fn new(location: Location, level: Level) -> (r: Self)
        ensures
            r.spec_location() == location,
            r.spec_level() == level,
    {
        Self { location, level }
    }

    /// The call site's location.
    pub fn location(&self) -> (r: &Location)
        ensures
            *r == self.spec_location(),
    {
        &self.location
    }

    /// The call site's level.
    pub fn level(&self) -> (r: Level)
        ensures
            r == self.spec_level(),
    {
        self.level
    }
}

/// The logging capability: an engine receives each fired call site
/// with its rendered message and fields.
pub trait Logger {
    /// Handles one log event.
    fn log(&mut self, callsite: &Callsite, msg: &str, fields: &[Field]);
}

} // verus!
