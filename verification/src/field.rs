//! Named values attached to profiler sections and tracing spans.

use vstd::prelude::*;

verus! {

/// The value of one field.
///
/// Values are plain: integers, booleans and borrowed text. A value
/// rendered through its debug form is carried as pre-rendered text.
pub enum FieldValue<'a> {
    /// A signed integer.
    Int(i64),
    /// An unsigned integer.
    UInt(u64),
    /// Borrowed text.
    Str(&'a str),
    /// Text rendered from a value's debug form.
    Dbg(&'a str),
    /// A boolean.
    Boolean(bool),
}

/// One named field.
pub struct Field<'a> {
    name: &'a str,
    value: FieldValue<'a>,
}

impl<'a> Field<'a> {
    /// The name, at the specification level.
    pub closed spec fn spec_name(self) -> Seq<char> {
        self.name@
    }

    /// The value, at the specification level.
    pub closed spec fn spec_value(self) -> FieldValue<'a> {
        self.value
    }

    /// Creates a field from a name and a value.
    pub fn new(name: &'a str, value: FieldValue<'a>) -> (r: Self)
        ensures
            r.spec_name() == name@,
            r.spec_value() == value,
    {
        Self { name, value }
    }

    /// Creates a field whose value is the debug-rendered text of some
    /// other value.
    pub fn new_debug(name: &'a str, value: &'a str) -> (r: Self)
        ensures
            r.spec_name() == name@,
            r.spec_value() == FieldValue::Dbg(value),
    {
        Self { name, value: FieldValue::Dbg(value) }
    }

    /// The field's name.
    pub fn name(&self) -> (r: &str)
        ensures
            r@ == self.spec_name(),
    {
        self.name
    }

    /// The field's value.
    pub fn value(&self) -> (r: &FieldValue<'a>)
        ensures
            *r == self.spec_value(),
    {
        &self.value
    }
}

/// A fixed-size set of fields, as built by a call site.
pub struct FieldSet<'a, const N: usize>([Field<'a>; N]);

impl<'a, const N: usize> FieldSet<'a, N> {
    /// The fields, at the specification level.
    pub closed spec fn spec_fields(self) -> Seq<Field<'a>> {
        self.0@
    }

    /// Wraps an array of fields.
    pub fn new(fields: [Field<'a>; N]) -> (r: Self)
        ensures
            r.spec_fields() == fields@,
    {
        Self(fields)
    }

    /// The fields as a slice.
    pub fn fields(&self) -> (r: &[Field<'a>])
        ensures
            r@ == self.spec_fields(),
    {
        self.0.as_slice()
    }
}

} // verus!
