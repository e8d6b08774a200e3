use bp3d_logger::engine::{EngineSlot, VoidDebugger};
use bp3d_logger::field::{Field, FieldSet, FieldValue};
use bp3d_logger::logger::interface::Callsite;
use bp3d_logger::logger::Logger;
use bp3d_logger::profiler::{Level, Section};
use bp3d_logger::trace::{Callsite as SpanCallsite, Span};
use bp3d_logger::util::Location;
use bp3d_logger::Builder;

fn ensure_send_sync<T: Send + Sync>(_: T) {}

#[test]
fn mod_basic() {
    let mut slot = EngineSlot::new();
    slot.set(VoidDebugger {});
    assert!(!slot.set(VoidDebugger {}));
}

#[test]
fn basic_test() {
    let logger = Builder::new().start();
    ensure_send_sync(logger);
}

#[test]
fn interface_api_test() {
    let tuple = (41, 42);
    let i = 42;
    let b = true;
    let mut engine = VoidDebugger {};
    let info_site = Callsite::new(
        Location::new("bp3d_logger::logger::interface", "interface.rs", 1),
        bp3d_logger::Level::Info,
    );
    let error_site = Callsite::new(
        Location::new("bp3d_logger::logger::interface", "interface.rs", 2),
        bp3d_logger::Level::Error,
    );
    let trace_site = Callsite::new(
        Location::new("bp3d_logger::logger::interface", "interface.rs", 3),
        bp3d_logger::Level::Trace,
    );
    engine.log(
        &info_site,
        &format!("test: {i}: {}", i),
        &[Field::new("i", FieldValue::Int(i))],
    );
    engine.log(&error_site, &format!("test: {}", i), &[]);
    let dbg_i = format!("{:?}", i);
    engine.log(
        &trace_site,
        &format!("test: {}", i),
        &[
            Field::new("i", FieldValue::Int(i)),
            Field::new_debug("i", &dbg_i),
            Field::new("id", FieldValue::Int(i)),
        ],
    );
    engine.log(&trace_site, &format!("test: {}, {}", i, i), &[]);
    engine.log(
        &trace_site,
        &format!("test41_42: {}, {}", tuple.0, tuple.1),
        &[],
    );
    engine.log(
        &trace_site,
        "a boolean",
        &[Field::new("b", FieldValue::Boolean(b))],
    );
}

#[test]
fn section_basic() {
    let _section = Section::new(
        "api_test",
        Location::new("bp3d_logger::profiler::section", "section.rs", 1),
        Level::Event,
    );
}

#[test]
fn api_test2() {
    let value = 32;
    let strv = "this is a test";
    let lvl = Level::Event;
    let mut engine = VoidDebugger {};
    let loc = Location::new("bp3d_logger::profiler::section", "section.rs", 1);
    let no_fields: [Field; 0] = [];
    let mut api_test = Section::new("API_TEST", loc, Level::Event);
    let entered = api_test.enter(&mut engine, FieldSet::new(no_fields));
    entered.exit(&mut engine);
    let parent = Section::new("API_TEST", loc, Level::Event);
    let no_fields: [Field; 0] = [];
    let mut api2_test = Section::new("API2_TEST", loc, Level::Event).set_parent(parent);
    let entered = api2_test.enter(&mut engine, FieldSet::new(no_fields));
    entered.exit(&mut engine);
    let parent = Section::new("API2_TEST", loc, Level::Event);
    let mut api3_test =
        Section::new("API3_TEST_WITH_PARAMS", loc, Level::Event).set_parent(parent);
    let dbg_lvl = format!("{:?}", lvl);
    let fields = FieldSet::new([
        Field::new("value", FieldValue::Int(value)),
        Field::new("str", FieldValue::Str(strv)),
        Field::new_debug("lvl", &dbg_lvl),
        Field::new("test", FieldValue::Int(value)),
    ]);
    let entered = api3_test.enter(&mut engine, fields);
    entered.exit(&mut engine);
}

#[test]
fn span_api_test() {
    let value = 32;
    let strv = "this is a test";
    let lvl = Level::Event;
    let mut engine = VoidDebugger {};
    let loc = Location::new("bp3d_logger::trace::span", "span.rs", 1);
    let mut api_test = SpanCallsite::new("API_TEST", loc);
    let _span = Span::new(&mut api_test, &mut engine);
    let mut api_test2 = SpanCallsite::new("API_TEST2", loc);
    let dbg_lvl = format!("{:?}", lvl);
    let span = Span::with_fields(
        &mut api_test2,
        &mut engine,
        &[
            Field::new("value", FieldValue::Int(value)),
            Field::new("str", FieldValue::Str(strv)),
            Field::new_debug("lvl", &dbg_lvl),
            Field::new("test", FieldValue::Int(value)),
        ],
    );
    span.record(&mut engine, &[Field::new("test2", FieldValue::Str(strv))]);
    let _entered = span.enter(&mut engine);
}
