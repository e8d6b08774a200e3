use bp3d_logger::timestamp::Timestamp;
use bp3d_logger::util::{extract_target_module, str_eq, Location};
use bp3d_logger::{Level, LogMsg, LOG_MSG_SIZE};

fn loc() -> Location {
    Location::new("app::net", "client.rs", 10)
}

fn some_time() -> Timestamp {
    Timestamp::new(1700000000, 2023, 11, 14, 2, 22, 13, 20).unwrap()
}

#[test]
fn from_msg_round_trip() {
    let msg = LogMsg::from_msg(loc(), Level::Info, "this is a test");
    assert_eq!(msg.msg(), "this is a test");
    assert_eq!(msg.location().mod_path(), "app::net");
    assert_eq!(msg.location().file(), "client.rs");
    assert_eq!(msg.location().line(), 10);
    assert_eq!(msg.level(), Level::Info);
}

#[test]
fn clear_keeps_metadata() {
    let mut msg = LogMsg::from_msg(loc(), Level::Warn, "payload");
    msg.clear();
    assert_eq!(msg.msg(), "");
    assert_eq!(msg.location().mod_path(), "app::net");
    assert_eq!(msg.level(), Level::Warn);
}

#[test]
fn with_time_keeps_the_time() {
    let t = some_time();
    let msg = LogMsg::with_time(loc(), t, Level::Debug);
    assert_eq!(*msg.time(), t);
    assert_eq!(msg.msg(), "");
    let mut msg = msg;
    let t2 = Timestamp::new(0, 1970, 1, 1, 4, 0, 0, 0).unwrap();
    msg.set_time(t2);
    assert_eq!(*msg.time(), t2);
}

#[test]
fn append_accumulates() {
    let mut msg = LogMsg::with_time(loc(), some_time(), Level::Info);
    assert_eq!(msg.write_str("h\u{e9}"), 3);
    assert_eq!(msg.write_str("llo"), 3);
    assert_eq!(msg.msg(), "h\u{e9}llo");
}

#[test]
fn write_bytes_counts_bytes() {
    let mut msg = LogMsg::with_time(loc(), some_time(), Level::Info);
    let n = msg.write("h\u{e9}llo".as_bytes());
    assert_eq!(n, 6);
    assert_eq!(msg.msg(), "h\u{e9}llo");
}

#[test]
fn oversized_body_writes_exactly_capacity() {
    let big = "a".repeat(2000);
    let msg = LogMsg::from_msg(loc(), Level::Info, &big);
    assert_eq!(msg.msg().len(), LOG_MSG_SIZE);
    assert_eq!(msg.msg(), &big[..LOG_MSG_SIZE]);
}

#[test]
fn exact_fit_multibyte_body() {
    let body: String = "\u{e9}".repeat(LOG_MSG_SIZE / 2);
    let msg = LogMsg::from_msg(loc(), Level::Info, &body);
    assert_eq!(msg.msg().len(), LOG_MSG_SIZE);
    assert_eq!(msg.msg(), body.as_str());
}

#[test]
fn truncation_never_splits_a_code_point() {
    let mut body = "a".repeat(LOG_MSG_SIZE - 2);
    body.push('\u{20ac}');
    body.push('b');
    let mut msg = LogMsg::with_time(loc(), some_time(), Level::Info);
    let written = msg.write_str(&body);
    assert_eq!(written, LOG_MSG_SIZE - 2);
    assert_eq!(msg.msg(), "a".repeat(LOG_MSG_SIZE - 2).as_str());
    assert!(std::str::from_utf8(msg.msg().as_bytes()).is_ok());
}

#[test]
fn truncation_is_silent_and_not_retried() {
    let mut msg = LogMsg::with_time(loc(), some_time(), Level::Info);
    let first = msg.write_str(&"x".repeat(LOG_MSG_SIZE));
    assert_eq!(first, LOG_MSG_SIZE);
    let second = msg.write_str("more");
    assert_eq!(second, 0);
    assert_eq!(msg.msg().len(), LOG_MSG_SIZE);
}

#[test]
fn record_copies_are_equal_in_content() {
    let msg = LogMsg::from_msg(loc(), Level::Error, "copy me");
    let copy = msg.clone();
    assert_eq!(copy.msg(), msg.msg());
    assert_eq!(copy.level(), msg.level());
    assert_eq!(copy.location().mod_path(), msg.location().mod_path());
    assert_eq!(*copy.time(), *msg.time());
}

#[test]
fn extract_target_module_splits_at_first_separator() {
    assert_eq!(
        extract_target_module("bp3d_logger::util::extract"),
        ("bp3d_logger", "util::extract")
    );
    assert_eq!(extract_target_module("app::net"), ("app", "net"));
}

#[test]
fn extract_target_module_without_separator_falls_back_to_main() {
    assert_eq!(extract_target_module("app"), ("app", "main"));
    assert_eq!(extract_target_module(""), ("", "main"));
}

#[test]
fn extract_target_module_edge_shapes() {
    assert_eq!(extract_target_module("::x"), ("", "x"));
    assert_eq!(extract_target_module("a::"), ("a", ""));
    assert_eq!(extract_target_module(":a:b"), (":a:b", "main"));
}

#[test]
fn str_eq_compares_content() {
    assert!(str_eq("abc", "abc"));
    assert!(!str_eq("abc", "abd"));
    assert!(!str_eq("abc", "ab"));
    assert!(str_eq("", ""));
}
