use std::backtrace::{Backtrace, BacktraceStatus};

use exception::render::render_debug;
use exception::trace::TraceStatus;
use exception::{Error, ErrorValue, TypeKey};

fn value(kind: u64, message: &str, source: Option<ErrorValue>) -> ErrorValue {
    ErrorValue {
        kind: TypeKey::Custom(kind),
        message: message.to_string(),
        source: source.map(Box::new),
        backtrace: None,
    }
}

const DISABLED: &str =
    "backtrace disabled; run with RUST_BACKTRACE=1 environment variable to display a backtrace";

#[test]
fn debug_golden_case() {
    let messages = vec!["disk full".to_string(), "write failed".to_string()];
    let text = render_debug(&messages, TraceStatus::Disabled, "");
    let expected = format!("disk full\n\ncaused by:\n\t0: write failed\n\n{}\n", DISABLED);
    assert_eq!(text, expected);
}

#[test]
fn debug_root_only_omits_cause_block() {
    let messages = vec!["disk full".to_string()];
    assert_eq!(render_debug(&messages, TraceStatus::Unsupported, "ignored"), "disk full\n");
    assert_eq!(
        render_debug(&messages, TraceStatus::Captured, "frame 0"),
        "disk full\n\nframe 0\n"
    );
}

#[test]
fn debug_numbers_causes_past_ten() {
    let mut messages = vec!["root".to_string()];
    for i in 0..12 {
        messages.push(format!("c{}", i));
    }
    let text = render_debug(&messages, TraceStatus::Unsupported, "");
    let mut expected = "root\n\ncaused by:\n".to_string();
    for i in 0..12 {
        expected.push_str(&format!("\t{}: c{}\n", i, i));
    }
    assert_eq!(text, expected);
    assert!(text.contains("\t10: c10\n\t11: c11\n"));
}

#[test]
fn debug_of_handle_walks_the_chain() {
    let e = Error::new(value(1, "disk full", Some(value(2, "write failed", None))));
    let text = e.debug();
    assert!(text.starts_with("disk full\n\ncaused by:\n\t0: write failed\n"));
    match e.backtrace().status() {
        BacktraceStatus::Disabled => assert!(text.ends_with(&format!("\n{}\n", DISABLED))),
        BacktraceStatus::Captured => assert!(text.len() > "disk full\n\ncaused by:\n\t0: write failed\n".len()),
        _ => assert_eq!(text, "disk full\n\ncaused by:\n\t0: write failed\n"),
    }
}

#[test]
fn display_is_root_message() {
    let e = Error::new(value(1, "disk full", Some(value(2, "write failed", None))));
    assert_eq!(e.display(), "disk full");
}

#[test]
fn backtrace_taken_when_value_has_none() {
    let e = Error::new(value(1, "disk full", None));
    assert!(e.as_error().backtrace.is_none());
    let _ = e.backtrace().status();
}

#[test]
fn backtrace_of_value_is_used() {
    let mut v = value(1, "disk full", None);
    v.backtrace = Some(Backtrace::disabled());
    let e = Error::new(v);
    let own = e.as_error().backtrace.as_ref().unwrap();
    assert!(std::ptr::eq(e.backtrace(), own));
    assert_eq!(e.backtrace().status(), BacktraceStatus::Disabled);
}

#[test]
fn identity_matches_only_own_type() {
    let e = Error::new(value(7, "bad", None));
    assert!(e.is(TypeKey::Custom(7)));
    assert!(!e.is(TypeKey::Custom(8)));
    assert!(!e.is(TypeKey::Message));
    let m = Error::new_adhoc("plain".to_string());
    assert!(m.is(TypeKey::Message));
    assert!(!m.is(TypeKey::Custom(7)));
}

#[test]
fn downcast_round_trip() {
    let e = Error::new(value(3, "timeout", Some(value(4, "socket closed", None))));
    let e = match e.downcast(TypeKey::Custom(4)) {
        Ok(_) => panic!("wrong type matched"),
        Err(e) => e,
    };
    assert_eq!(e.display(), "timeout");
    let v = match e.downcast(TypeKey::Custom(3)) {
        Ok(v) => v,
        Err(_) => panic!("own type did not match"),
    };
    assert_eq!(v.kind, TypeKey::Custom(3));
    assert_eq!(v.message, "timeout");
    assert_eq!(v.source.as_ref().unwrap().message, "socket closed");
}

#[test]
fn downcast_by_reference() {
    let mut e = Error::new(value(5, "first", None));
    assert!(e.downcast_ref(TypeKey::Custom(6)).is_none());
    assert_eq!(e.downcast_ref(TypeKey::Custom(5)).unwrap().message, "first");
    assert!(e.downcast_mut(TypeKey::Custom(6)).is_none());
    e.downcast_mut(TypeKey::Custom(5)).unwrap().message = "second".to_string();
    assert_eq!(e.display(), "second");
    e.as_error_mut().message = "third".to_string();
    assert_eq!(e.as_error().message, "third");
}

#[test]
fn adhoc_message_round_trip() {
    let e = Error::new_adhoc("just a message".to_string());
    assert_eq!(e.display(), "just a message");
    assert_eq!(e.errors().next().unwrap().message, "just a message");
    let v = match e.downcast(TypeKey::Message) {
        Ok(v) => v,
        Err(_) => panic!("message type did not match"),
    };
    assert_eq!(v.message, "just a message");
    assert!(v.source.is_none());
}

#[test]
fn chain_walk_yields_each_cause_once() {
    let e = Error::from(value(1, "a", Some(value(2, "b", Some(value(3, "c", None))))));
    for _ in 0..2 {
        let mut walk = e.errors();
        let mut seen = Vec::new();
        while let Some(v) = walk.next() {
            seen.push(v.message.clone());
        }
        assert_eq!(seen, vec!["a", "b", "c"]);
        assert!(walk.next().is_none());
    }
}

#[test]
fn from_behaves_like_new() {
    let mut v = value(9, "converted", None);
    v.backtrace = Some(Backtrace::disabled());
    let e = Error::from(v);
    assert!(e.is(TypeKey::Custom(9)));
    assert!(!e.is(TypeKey::Custom(10)));
    assert_eq!(e.display(), "converted");
    assert!(std::ptr::eq(e.backtrace(), e.as_error().backtrace.as_ref().unwrap()));
    let back = match e.downcast(TypeKey::Custom(9)) {
        Ok(v) => v,
        Err(_) => panic!("own type did not match"),
    };
    assert_eq!(back.message, "converted");
}
