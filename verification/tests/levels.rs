use bp3d_logger::{Level, LevelFilter};

#[test]
fn level_names() {
    assert_eq!(Level::Error.as_str(), "ERROR");
    assert_eq!(Level::Warn.as_str(), "WARN");
    assert_eq!(Level::Info.as_str(), "INFO");
    assert_eq!(Level::Debug.as_str(), "DEBUG");
    assert_eq!(Level::Trace.as_str(), "TRACE");
    assert_eq!(LevelFilter::Off.as_str(), "OFF");
    assert_eq!(LevelFilter::Trace.as_str(), "TRACE");
}

#[test]
fn off_admits_nothing() {
    assert!(!LevelFilter::Off.admits(Level::Error));
    assert!(!LevelFilter::Off.admits(Level::Warn));
    assert!(!LevelFilter::Off.admits(Level::Info));
    assert!(!LevelFilter::Off.admits(Level::Debug));
    assert!(!LevelFilter::Off.admits(Level::Trace));
}

#[test]
fn filter_admits_up_to_its_level() {
    assert!(LevelFilter::Info.admits(Level::Error));
    assert!(LevelFilter::Info.admits(Level::Warn));
    assert!(LevelFilter::Info.admits(Level::Info));
    assert!(!LevelFilter::Info.admits(Level::Debug));
    assert!(!LevelFilter::Info.admits(Level::Trace));
    assert!(LevelFilter::Trace.admits(Level::Trace));
    assert!(LevelFilter::Error.admits(Level::Error));
    assert!(!LevelFilter::Error.admits(Level::Warn));
}

#[test]
fn level_maps_to_its_filter() {
    assert!(Level::Error.as_level_filter().admits(Level::Error));
    assert!(!Level::Error.as_level_filter().admits(Level::Warn));
    assert!(Level::Trace.as_level_filter().admits(Level::Trace));
    assert_eq!(Level::Info.severity(), LevelFilter::Info.severity());
}
