use bp3d_logger::backend::{Backend, StdBackend};
use bp3d_logger::handler::{color, Flag, LevelColor};
use bp3d_logger::timestamp::{format_2d, format_4d, format_iso_time_str, format_time_str, Timestamp};
use bp3d_logger::trace::Id;
use bp3d_logger::{Colors, Level};

#[test]
fn two_and_four_digit_padding() {
    assert_eq!(format_2d(0), "00");
    assert_eq!(format_2d(7), "07");
    assert_eq!(format_2d(42), "42");
    assert_eq!(format_4d(0), "0000");
    assert_eq!(format_4d(2024), "2024");
    assert_eq!(format_4d(7), "0007");
}

#[test]
fn terminal_time_layout() {
    let t = Timestamp::new(0, 2024, 1, 2, 2, 15, 4, 5).unwrap();
    assert_eq!(format_time_str(&t), "Tue Jan 02 03:04:05 PM");
    let t = Timestamp::new(0, 2024, 12, 31, 0, 0, 59, 7).unwrap();
    assert_eq!(format_time_str(&t), "Sun Dec 31 12:59:07 AM");
    let t = Timestamp::new(0, 2024, 6, 15, 6, 12, 0, 0).unwrap();
    assert_eq!(format_time_str(&t), "Sat Jun 15 12:00:00 PM");
}

#[test]
fn file_time_layout() {
    let t = Timestamp::new(0, 2024, 1, 2, 2, 15, 4, 5).unwrap();
    assert_eq!(format_iso_time_str(&t), "2024-01-02 15:04:05");
    let t = Timestamp::new(0, -44, 3, 15, 5, 12, 0, 0).unwrap();
    assert_eq!(format_iso_time_str(&t), "-0044-03-15 12:00:00");
}

#[test]
fn timestamp_rejects_out_of_range_fields() {
    assert!(Timestamp::new(0, 2024, 13, 1, 0, 0, 0, 0).is_none());
    assert!(Timestamp::new(0, 2024, 0, 1, 0, 0, 0, 0).is_none());
    assert!(Timestamp::new(0, 2024, 1, 32, 0, 0, 0, 0).is_none());
    assert!(Timestamp::new(0, 2024, 1, 1, 7, 0, 0, 0).is_none());
    assert!(Timestamp::new(0, 2024, 1, 1, 0, 24, 0, 0).is_none());
    assert!(Timestamp::new(0, 2024, 1, 1, 0, 0, 60, 0).is_none());
    assert!(Timestamp::new(0, 2024, 1, 1, 0, 0, 0, 60).is_none());
    assert!(Timestamp::new(0, 10000, 1, 1, 0, 0, 0, 0).is_none());
    assert!(Timestamp::new(0, 2024, 1, 1, 0, 0, 0, 0).is_some());
}

#[test]
fn now_utc_is_well_formed() {
    let t = Timestamp::now_utc();
    assert!((1..=12).contains(&t.month()));
    assert!((1..=31).contains(&t.day()));
    assert!(t.weekday() < 7);
    assert!(t.hour() < 24);
    assert!(t.minute() < 60);
    assert!(t.second() < 60);
    let l = t.to_local();
    assert_eq!(l.unix_seconds(), t.unix_seconds());
    assert!((1..=12).contains(&l.month()));
}

#[test]
fn level_colors() {
    assert!(matches!(color(Level::Error), LevelColor::Red));
    assert!(matches!(color(Level::Warn), LevelColor::Yellow));
    assert!(matches!(color(Level::Info), LevelColor::Green));
    assert!(matches!(color(Level::Debug), LevelColor::Blue));
    assert!(matches!(color(Level::Trace), LevelColor::Cyan));
}

#[test]
fn backend_lays_out_target_level_and_message() {
    let mut b = StdBackend::new(true, Colors::Disabled);
    assert!(b.write("app", "hello", Level::Info).is_ok());
    assert!(b.write("app", "bad", Level::Error).is_ok());
    assert!(b.flush().is_ok());
    let lines = b.take_lines();
    assert_eq!(lines.len(), 2);
    assert_eq!(lines[0].text, "<app> [INFO] hello");
    assert!(!lines[0].stderr);
    assert_eq!(lines[1].text, "<app> [ERROR] bad");
    assert!(lines[1].stderr);
}

#[test]
fn backend_without_smart_stderr_uses_stdout() {
    let mut b = StdBackend::new(false, Colors::Disabled);
    assert!(b.write("app", "bad", Level::Error).is_ok());
    let lines = b.take_lines();
    assert!(!lines[0].stderr);
}

#[test]
fn flag_toggles() {
    let mut f = Flag::new(true);
    assert!(f.is_enabled());
    f.set(false);
    assert!(!f.is_enabled());
}

#[test]
fn span_id_packs_and_unpacks() {
    let id = Id::new(5, 7);
    assert_eq!(id.get_callsite(), 5);
    assert_eq!(id.get_instance(), 7);
    assert_eq!(id.into_raw(), (5u64 << 32) | 7);
    let id2 = Id::from_raw((9u64 << 32) | 3);
    assert_eq!(id2.get_callsite(), 9);
    assert_eq!(id2.get_instance(), 3);
}
