//! Tracing spans: identifiers, call sites and span handles.

use crate::field::Field;
use crate::trace::Tracer;
use crate::util::Location;
use vstd::prelude::*;

verus! {

/// A span identifier: a nonzero call-site number in the high half and
/// a nonzero instance number in the low half of one word.
#[derive(Clone, Copy, Debug, PartialEq, Eq, Structural)]
pub struct Id {
    raw: u64,
}

impl Id {
    /// The packed word, at the specification level.
    pub closed spec fn spec_raw(self) -> u64 {
        self.raw
    }

    /// The call-site half, at the specification level.
    pub open spec fn spec_callsite(self) -> u32 {
        (self.spec_raw() >> 32) as u32
    }

    /// The instance half, at the specification level.
    pub open spec fn spec_instance(self) -> u32 {
        self.spec_raw() as u32
    }

    /// Packs a call-site number and an instance number into one
    /// identifier.
    pub fn new(callsite: u32, instance: u32) -> (r: Id)
        requires
            callsite >= 1,
            instance >= 1,
        ensures
            r.spec_callsite() == callsite,
            r.spec_instance() == instance,
            r.spec_raw() != 0,
    {
        let raw: u64 = ((callsite as u64) << 32u64) | (instance as u64);
        proof {
            assert(((((callsite as u64) << 32u64) | (instance as u64)) >> 32u64) as u32
                == callsite) by (bit_vector);
            assert((((callsite as u64) << 32u64) | (instance as u64)) as u32 == instance)
                by (bit_vector);
            assert(callsite >= 1 ==> (((callsite as u64) << 32u64) | (instance as u64)) != 0)
                by (bit_vector);
        }
        Id { raw }
    }

    /// Rebuilds an identifier from its packed word.
    pub fn from_raw(id: u64) -> (r: Id)
        requires
            id != 0,
        ensures
            r.spec_raw() == id,
    {
        Id { raw: id }
    }

    /// The packed word of this identifier.
    pub fn into_raw(self) -> (r: u64)
        ensures
            r == self.spec_raw(),
    {
        self.raw
    }

    /// The call-site half of this identifier.
    pub fn get_callsite(&self) -> (r: u32)
        ensures
            r == self.spec_callsite(),
    {
        (self.raw >> 32u64) as u32
    }

    /// The instance half of this identifier.
    pub fn get_instance(&self) -> (r: u32)
        ensures
            r == self.spec_instance(),
    {
        self.raw as u32
    }
}

/// A static description of one span call site.
pub struct Callsite {
    name: &'static str,
    location: Location,
    id: Option<u32>,
}

impl Callsite {
    /// The name, at the specification level.
    pub closed spec fn spec_name(self) -> Seq<char> {
        self.name@
    }

    /// The location, at the specification level.
    pub closed spec fn spec_location(self) -> Location {
        self.location
    }

    /// The registered identifier, if any, at the specification level.
    pub closed spec fn spec_id(self) -> Option<u32> {
        self.id
    }

    /// Creates a span call-site descriptor, not yet registered.
    pub fn new(name: &'static str, location: Location) -> (r: Self)
        ensures
            r.spec_name() == name@,
            r.spec_location() == location,
            r.spec_id() is None,
    {
        Self { name, location, id: None }
    }

    /// The call site's location.
    pub fn location(&self) -> (r: &Location)
        ensures
            *r == self.spec_location(),
    {
        &self.location
    }

    /// The call site's name.
    pub fn name(&self) -> (r: &'static str)
        ensures
            r@ == self.spec_name(),
    {
        self.name
    }

    /// The call site's nonzero identifier, registering it with the
    /// engine on first use.
    pub fn get_id<E: Tracer>(&mut self, engine: &mut E) -> (r: u32)
        requires
            old(self).spec_id() matches Some(i) ==> i >= 1,
        ensures
            r >= 1,
            final(self).spec_id() == Some(r),
            final(self).spec_name() == old(self).spec_name(),
            final(self).spec_location() == old(self).spec_location(),
            old(self).spec_id() matches Some(i) ==> r == i,
    {
        match self.id {
            Some(i) => i,
            None => {
                let i = engine.register_callsite(self);
                self.id = Some(i);
                i
            },
        }
    }
}

/// A span that was entered; releasing it marks the exit.
pub struct Entered {
    id: Id,
}

impl Entered {
    /// The entered span's identifier, at the specification level.
    pub closed spec fn spec_id(self) -> Id {
        self.id
    }

    /// The entered span's identifier.
    pub fn id(&self) -> (r: Id)
        ensures
            r == self.spec_id(),
    {
        self.id
    }

    /// Marks the exit of the span with the engine.
    pub fn exit<E: Tracer>(self, engine: &mut E) {
        engine.span_exit(self.id);
    }
}

/// A live tracing span.
pub struct Span {
    id: Id,
}

impl Span {
    /// The span's identifier, at the specification level.
    pub closed spec fn spec_id(self) -> Id {
        self.id
    }

    /// Creates a span of the given call site carrying fields.
    pub fn with_fields<E: Tracer>(callsite: &mut Callsite, engine: &mut E, fields: &[Field]) -> (r:
        Span)
        requires
            old(callsite).spec_id() matches Some(i) ==> i >= 1,
        ensures
            final(callsite).spec_id() == Some(r.spec_id().spec_callsite()),
            r.spec_id().spec_instance() >= 1,
    {
        let cs = callsite.get_id(engine);
        let instance = engine.span_create(cs, fields);
        Span { id: Id::new(cs, instance) }
    }

    /// Creates a span of the given call site without fields.
    pub fn new<E: Tracer>(callsite: &mut Callsite, engine: &mut E) -> (r: Span)
        requires
            old(callsite).spec_id() matches Some(i) ==> i >= 1,
        ensures
            final(callsite).spec_id() == Some(r.spec_id().spec_callsite()),
            r.spec_id().spec_instance() >= 1,
    {
        let cs = callsite.get_id(engine);
        let instance = engine.span_create(cs, &[]);
        Span { id: Id::new(cs, instance) }
    }

    /// Attaches fields to this span.
    pub fn record<E: Tracer>(&self, engine: &mut E, fields: &[Field]) {
        engine.span_record(self.id, fields);
    }

    /// Enters this span.
    pub fn enter<E: Tracer>(&self, engine: &mut E) -> (r: Entered)
        ensures
            r.spec_id() == self.spec_id(),
    {
        engine.span_enter(self.id);
        Entered { id: self.id }
    }

    /// The span's identifier.
    pub fn id(&self) -> (r: Id)
        ensures
            r == self.spec_id(),
    {
        self.id
    }
}

} // verus!
