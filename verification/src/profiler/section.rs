//! Profiler sections: named, levelled regions of code whose runs are
//! timed and handed to the engine.

use crate::field::FieldSet;
use crate::profiler::Profiler;
use crate::util::Location;
use vstd::prelude::*;

verus! {

/// How often a section is expected to run.
#[derive(Clone, Copy, Debug, PartialEq, Eq, Structural)]
pub enum Level {
    /// A section located in a critically hot path.
    Critical,
    /// A periodic section.
    Periodic,
    /// An event based section.
    Event,
}

/// Relies on `std::time::SystemTime::now` and
/// `SystemTime::duration_since`: a clock reading in nanoseconds, zero
/// when the clock stands before the epoch; nothing more is promised of
/// a clock.
#[verifier::external_body]
fn clock_nanos() -> u64 {
    match std::time::SystemTime::now().duration_since(std::time::UNIX_EPOCH) {
        Ok(d) => d.as_nanos() as u64,
        Err(_) => 0,
    }
}

/// A section that was entered: it remembers when, and carries the call
/// site's fields until the exit is recorded.
pub struct Entered<'a, const N: usize> {
    id: u32,
    start: u64,
    fields: FieldSet<'a, N>,
}

impl<'a, const N: usize> Entered<'a, N> {
    /// The section identifier, at the specification level.
    pub closed spec fn spec_section_id(self) -> u32 {
        self.id
    }

    /// The entry instant, at the specification level.
    pub closed spec fn spec_start(self) -> u64 {
        self.start
    }

    /// The section identifier this entry belongs to.
    pub fn section_id(&self) -> (r: u32)
        ensures
            r == self.spec_section_id(),
    {
        self.id
    }

    /// The instant the section was entered, in clock nanoseconds.
    pub fn start(&self) -> (r: u64)
        ensures
            r == self.spec_start(),
    {
        self.start
    }

    /// Ends this run and records it with the engine.
    pub fn exit<E: Profiler>(self, engine: &mut E) {
        let end = clock_nanos();
        engine.section_record(self.id, self.start, end, self.fields.fields());
    }
}

/// A profiled region of code.
pub struct Section {
    name: &'static str,
    location: Location,
    level: Level,
    parent: Option<Box<Section>>,
    id: Option<u32>,
}

impl Section {
    /// The name, at the specification level.
    pub closed spec fn spec_name(self) -> Seq<char> {
        self.name@
    }

    /// The location, at the specification level.
    pub closed spec fn spec_location(self) -> Location {
        self.location
    }

    /// The level, at the specification level.
    pub closed spec fn spec_level(self) -> Level {
        self.level
    }

    /// The parent, at the specification level.
    pub closed spec fn spec_parent(self) -> Option<Box<Section>> {
        self.parent
    }

    /// The registered identifier, if any, at the specification level.
    pub closed spec fn spec_id(self) -> Option<u32> {
        self.id
    }

    /// Creates a section, without a parent and not yet registered.
    pub fn new(name: &'static str, location: Location, level: Level) -> (r: Self)
        ensures
            r.spec_name() == name@,
            r.spec_location() == location,
            r.spec_level() == level,
            r.spec_parent() is None,
            r.spec_id() is None,
    {
        Self { name, location, level, parent: None, id: None }
    }

    /// Sets the parent section.
    pub fn set_parent(self, parent: Section) -> (r: Self)
        ensures
            r.spec_name() == self.spec_name(),
            r.spec_location() == self.spec_location(),
            r.spec_level() == self.spec_level(),
            r.spec_parent() matches Some(p) && *p == parent,
            r.spec_id() == self.spec_id(),
    {
        let mut this = self;
        this.parent = Some(Box::new(parent));
        this
    }

    /// The section's name.
    pub fn name(&self) -> (r: &'static str)
        ensures
            r@ == self.spec_name(),
    {
        self.name
    }

    /// The section's location.
    pub fn location(&self) -> (r: &Location)
        ensures
            *r == self.spec_location(),
    {
        &self.location
    }

    /// The section's level.
    pub fn level(&self) -> (r: Level)
        ensures
            r == self.spec_level(),
    {
        self.level
    }

    /// The section's parent, if any.
    pub fn parent(&self) -> (r: &Option<Box<Section>>)
        ensures
            *r == self.spec_parent(),
    {
        &self.parent
    }

    /// The section's nonzero identifier, registering it with the
    /// engine on first use.
    pub fn get_id<E: Profiler>(&mut self, engine: &mut E) -> (r: u32)
        requires
            old(self).spec_id() matches Some(i) ==> i >= 1,
        ensures
            r >= 1,
            final(self).spec_id() == Some(r),
            final(self).spec_name() == old(self).spec_name(),
            final(self).spec_location() == old(self).spec_location(),
            final(self).spec_level() == old(self).spec_level(),
            final(self).spec_parent() == old(self).spec_parent(),
            old(self).spec_id() matches Some(i) ==> r == i,
    {
        match self.id {
            Some(i) => i,
            None => {
                let i = engine.section_register(self);
                self.id = Some(i);
                i
            },
        }
    }

    /// Enters this section: the run starts now and carries the given
    /// fields until its exit is recorded.
    pub fn enter<'a, const N: usize, E: Profiler>(
        &mut self,
        engine: &mut E,
        fields: FieldSet<'a, N>,
    ) -> (r: Entered<'a, N>)
        requires
            old(self).spec_id() matches Some(i) ==> i >= 1,
        ensures
            r.spec_section_id() >= 1,
            final(self).spec_id() == Some(r.spec_section_id()),
    {
        let id = self.get_id(engine);
        Entered { id, start: clock_nanos(), fields }
    }
}

} // verus!
