use bp3d_logger::engine::{EngineSlot, VoidDebugger};
use bp3d_logger::handler::{HandlerKind, LogQueue, LogQueueHandler};
use bp3d_logger::util::Location;
use bp3d_logger::{Builder, Level, LevelFilter, LogMsg};

fn msg(path: &'static str, level: Level, body: &str) -> LogMsg {
    LogMsg::from_msg(Location::new(path, "test.rs", 1), level, body)
}

fn capture_builder(capacity: usize) -> Builder {
    Builder::new().add_handler(HandlerKind::Queue(LogQueueHandler::new(LogQueue::new(
        capacity,
    ))))
}

#[test]
fn stdout_error_goes_to_stderr() {
    let mut logger = Builder::new().add_stdout().start();
    logger.log(&msg("app::net", Level::Error, "boom"));
    logger.flush();
    let mut handlers = logger.shutdown().into_handlers();
    assert_eq!(handlers.len(), 1);
    match &mut handlers[0] {
        HandlerKind::Std(h) => {
            let lines = h.take_lines();
            assert_eq!(lines.len(), 1);
            assert!(lines[0].stderr);
            assert!(!lines[0].colored);
            assert_eq!(lines[0].level, Level::Error);
            assert!(lines[0].text.starts_with("<app> [ERROR] "));
            assert!(lines[0].text.ends_with(" net: boom"));
        }
        _ => panic!("expected the std sink"),
    }
}

#[test]
fn stdout_info_stays_on_stdout() {
    let mut logger = Builder::new().add_stdout().start();
    logger.log(&msg("app::net", Level::Info, "hello"));
    logger.flush();
    let mut handlers = logger.shutdown().into_handlers();
    match &mut handlers[0] {
        HandlerKind::Std(h) => {
            let lines = h.take_lines();
            assert_eq!(lines.len(), 1);
            assert!(!lines[0].stderr);
            assert!(lines[0].text.starts_with("<app> [INFO] "));
            assert!(lines[0].text.ends_with(" net: hello"));
        }
        _ => panic!("expected the std sink"),
    }
}

#[test]
fn file_sink_appends_per_target() {
    let mut logger = Builder::new().add_file("/tmp/logs").start();
    logger.log(&msg("app::net", Level::Info, "hello"));
    logger.flush();
    let mut handlers = logger.shutdown().into_handlers();
    match &mut handlers[0] {
        HandlerKind::File(f) => {
            assert_eq!(f.path(), "/tmp/logs");
            let entries = f.entries_ref();
            assert_eq!(entries.len(), 1);
            assert_eq!(entries[0].target, "app");
            assert!(entries[0].pending.is_empty());
            assert_eq!(entries[0].flushed.len(), 1);
            assert!(entries[0].flushed[0].starts_with("[INFO] ("));
            assert!(entries[0].flushed[0].ends_with(") net: hello"));
        }
        _ => panic!("expected the file sink"),
    }
}

#[test]
fn file_sink_routes_by_target() {
    let mut logger = Builder::new().add_file("/tmp/logs").start();
    logger.log(&msg("app::net", Level::Info, "one"));
    logger.log(&msg("tool::cli", Level::Warn, "two"));
    logger.log(&msg("app::db", Level::Info, "three"));
    logger.flush();
    let mut handlers = logger.shutdown().into_handlers();
    match &mut handlers[0] {
        HandlerKind::File(f) => {
            let entries = f.entries_ref();
            assert_eq!(entries.len(), 2);
            assert_eq!(entries[0].target, "app");
            assert_eq!(entries[1].target, "tool");
            assert_eq!(entries[0].flushed.len(), 2);
            assert_eq!(entries[1].flushed.len(), 1);
            assert!(entries[0].flushed[1].ends_with(") db: three"));
            assert!(entries[1].flushed[0].starts_with("[WARN] ("));
        }
        _ => panic!("expected the file sink"),
    }
}

#[test]
fn capture_evicts_oldest_with_small_ring() {
    let mut logger = capture_builder(2).buffer_size(2).start();
    logger.raw_log(&msg("app", Level::Info, "r1"));
    logger.raw_log(&msg("app", Level::Info, "r2"));
    logger.raw_log(&msg("app", Level::Info, "r3"));
    logger.flush();
    assert_eq!(logger.read_captured().unwrap().msg(), "r2");
    assert_eq!(logger.read_captured().unwrap().msg(), "r3");
    assert!(logger.read_captured().is_none());
}

#[test]
fn filter_admits_and_flips() {
    let mut logger = capture_builder(8).filter(LevelFilter::Warn).start();
    logger.log(&msg("app", Level::Info, "i1"));
    logger.log(&msg("app", Level::Error, "e1"));
    logger.set_filter(LevelFilter::Trace);
    logger.log(&msg("app", Level::Trace, "t1"));
    logger.flush();
    assert_eq!(logger.read_captured().unwrap().msg(), "e1");
    assert_eq!(logger.read_captured().unwrap().msg(), "t1");
    assert!(logger.read_captured().is_none());
}

#[test]
fn off_filter_drops_everything() {
    let mut logger = capture_builder(8).start();
    logger.set_filter(LevelFilter::Off);
    assert!(!logger.is_enabled());
    logger.log(&msg("app", Level::Error, "dropped"));
    logger.set_filter(LevelFilter::Info);
    assert!(logger.is_enabled());
    logger.flush();
    assert!(logger.read_captured().is_none());
}

#[test]
fn flush_with_off_filter_is_a_no_op() {
    let mut logger = capture_builder(8).start();
    logger.raw_log(&msg("app", Level::Info, "queued"));
    logger.set_filter(LevelFilter::Off);
    logger.flush();
    assert!(logger.read_captured().is_none());
    logger.set_filter(LevelFilter::Info);
    logger.flush();
    assert_eq!(logger.read_captured().unwrap().msg(), "queued");
}

#[test]
fn raw_log_bypasses_the_filter() {
    let mut logger = capture_builder(8).filter(LevelFilter::Off).start();
    logger.raw_log(&msg("app", Level::Debug, "raw"));
    logger.set_filter(LevelFilter::Info);
    logger.flush();
    assert_eq!(logger.read_captured().unwrap().msg(), "raw");
}

#[test]
fn flush_twice_equals_flush_once() {
    let mut logger = Builder::new().add_file("/tmp/logs").start();
    logger.log(&msg("app::net", Level::Info, "only"));
    logger.flush();
    logger.flush();
    let mut handlers = logger.shutdown().into_handlers();
    match &mut handlers[0] {
        HandlerKind::File(f) => {
            let entries = f.entries_ref();
            assert_eq!(entries.len(), 1);
            assert_eq!(entries[0].flushed.len(), 1);
            assert!(entries[0].pending.is_empty());
        }
        _ => panic!("expected the file sink"),
    }
}

#[test]
fn shutdown_drains_queued_records() {
    let mut logger = capture_builder(8).start();
    logger.log(&msg("app", Level::Info, "pending"));
    let mut handlers = logger.shutdown().into_handlers();
    match &mut handlers[0] {
        HandlerKind::Queue(q) => {
            assert_eq!(q.pop().unwrap().msg(), "pending");
            assert!(q.pop().is_none());
        }
        _ => panic!("expected the capture sink"),
    }
}

#[test]
fn capture_round_trip_preserves_record() {
    let mut logger = capture_builder(8).start();
    let r = msg("app::net", Level::Warn, "round trip");
    logger.raw_log(&r);
    logger.flush();
    let c = logger.read_captured().unwrap();
    assert_eq!(c.msg(), r.msg());
    assert_eq!(c.level(), r.level());
    assert_eq!(c.location().mod_path(), r.location().mod_path());
}

#[test]
fn clear_captured_empties_the_ring() {
    let mut logger = capture_builder(8).start();
    logger.raw_log(&msg("app", Level::Info, "one"));
    logger.flush();
    logger.clear_captured();
    assert!(logger.read_captured().is_none());
}

#[test]
fn disabled_stdout_skips_records() {
    let mut logger = Builder::new().add_stdout().start();
    logger.enable_stdout(false);
    logger.log(&msg("app", Level::Info, "hidden"));
    logger.flush();
    logger.enable_stdout(true);
    logger.log(&msg("app", Level::Info, "shown"));
    logger.flush();
    let mut handlers = logger.shutdown().into_handlers();
    match &mut handlers[0] {
        HandlerKind::Std(h) => {
            let lines = h.take_lines();
            assert_eq!(lines.len(), 1);
            assert!(lines[0].text.ends_with(" main: shown"));
        }
        _ => panic!("expected the std sink"),
    }
}

#[test]
fn submission_order_is_preserved_per_handler() {
    let mut logger = capture_builder(16).start();
    let mut k = 0;
    while k < 10 {
        logger.log(&msg("app", Level::Info, &format!("A-{}", k)));
        k += 1;
    }
    logger.flush();
    let mut k = 0;
    while k < 10 {
        assert_eq!(logger.read_captured().unwrap().msg(), format!("A-{}", k));
        k += 1;
    }
    assert!(logger.read_captured().is_none());
}

#[test]
fn backpressure_drains_instead_of_dropping() {
    let mut logger = capture_builder(64).buffer_size(1).start();
    let mut k = 0;
    while k < 20 {
        logger.log(&msg("app", Level::Info, &format!("B-{}", k)));
        k += 1;
    }
    logger.flush();
    let mut k = 0;
    while k < 20 {
        assert_eq!(logger.read_captured().unwrap().msg(), format!("B-{}", k));
        k += 1;
    }
    assert!(logger.read_captured().is_none());
}

#[test]
fn with_logger_returns_the_closure_result() {
    let r = bp3d_logger::with_logger(Builder::new(), || 41 + 1);
    assert_eq!(r, 42);
}

struct NoDir;

impl bp3d_logger::GetLogs for NoDir {
    fn get_logs(self) -> Option<String> {
        None
    }
}

#[test]
fn add_file_without_directory_drops_the_sink() {
    let logger = Builder::new().add_file(NoDir).start();
    let handlers = logger.shutdown().into_handlers();
    assert_eq!(handlers.len(), 0);
}

#[test]
fn interleaved_submissions_keep_each_sequence_in_order() {
    let mut logger = capture_builder(64).start();
    let mut k = 0;
    while k < 10 {
        logger.log(&msg("app", Level::Info, &format!("A-{}", k)));
        logger.log(&msg("app", Level::Info, &format!("B-{}", k)));
        k += 1;
    }
    logger.flush();
    let mut seen_a = Vec::new();
    let mut seen_b = Vec::new();
    while let Some(m) = logger.read_captured() {
        let body = m.msg().to_owned();
        if body.starts_with("A-") {
            seen_a.push(body);
        } else {
            seen_b.push(body);
        }
    }
    let want_a: Vec<String> = (0..10).map(|k| format!("A-{}", k)).collect();
    let want_b: Vec<String> = (0..10).map(|k| format!("B-{}", k)).collect();
    assert_eq!(seen_a, want_a);
    assert_eq!(seen_b, want_b);
}

#[test]
fn engine_slot_reports_installation() {
    let mut slot = EngineSlot::new();
    assert!(!slot.is_initialized());
    assert!(slot.set(VoidDebugger {}));
    assert!(slot.is_initialized());
}

#[test]
fn add_file_dir_appends_the_named_root() {
    let logger = Builder::new()
        .add_file_dir(Some(String::from("/tmp/other-logs")))
        .start();
    let handlers = logger.shutdown().into_handlers();
    assert_eq!(handlers.len(), 1);
    match &handlers[0] {
        HandlerKind::File(f) => {
            assert_eq!(f.path(), "/tmp/other-logs");
            assert!(f.entries_ref().is_empty());
        }
        _ => panic!("expected the file sink"),
    }
}

#[test]
fn add_file_dir_without_directory_changes_nothing() {
    let logger = Builder::new().add_file_dir(None).start();
    let handlers = logger.shutdown().into_handlers();
    assert_eq!(handlers.len(), 0);
}

#[test]
fn engine_slot_hands_the_engine_out() {
    let mut slot = EngineSlot::new();
    assert!(slot.engine_ref().is_none());
    assert!(slot.set(VoidDebugger {}));
    assert!(slot.engine_ref().is_some());
    assert!(slot.into_engine().is_some());
}
