//! The engine: the single sink for log, profiling and tracing events.
//!
//! An engine bundles the three capabilities. A process installs one
//! engine at most once, in an [`EngineSlot`]; until then the void
//! engine swallows every event.

pub mod void;

use vstd::prelude::*;

pub use void::VoidDebugger;

verus! {

/// The full engine capability: logging, profiling and tracing.
pub trait Engine: crate::logger::Logger + crate::profiler::Profiler + crate::trace::Tracer {

}

/// The slot a process keeps its engine in: it accepts one engine, once.
pub struct EngineSlot<E> {
    engine: Option<E>,
}

impl<E> EngineSlot<E> {
    /// The installed engine, if any, at the specification level.
    pub closed spec fn spec_engine(self) -> Option<E> {
        self.engine
    }

    /// An empty slot.
    pub fn new() -> (r: Self)
        ensures
            r.spec_engine() is None,
    {
        Self { engine: None }
    }

    /// Installs an engine. The first call takes the engine and returns
    /// true; every later call refuses and returns false.
    pub fn set(&mut self, engine: E) -> (r: bool)
        ensures
            r == (old(self).spec_engine() is None),
            old(self).spec_engine() is None ==> final(self).spec_engine() == Some(engine),
            old(self).spec_engine() is Some ==> final(self).spec_engine() == old(
                self,
            ).spec_engine(),
    {
        match self.engine {
            Some(_) => false,
            None => {
                self.engine = Some(engine);
                true
            },
        }
    }

    /// A read-only view of the installed engine, if any.
    pub fn engine_ref(&self) -> (r: &Option<E>)
        ensures
            *r == self.spec_engine(),
    {
        &self.engine
    }

    /// Hands the installed engine out, consuming the slot.
    pub fn into_engine(self) -> (r: Option<E>)
        ensures
            r == self.spec_engine(),
    {
        self.engine
    }

    /// True when an engine was installed.
    pub fn is_initialized(&self) -> (r: bool)
        ensures
            r == (self.spec_engine() is Some),
    {
        match self.engine {
            Some(_) => true,
            None => false,
        }
    }
}

} // verus!
