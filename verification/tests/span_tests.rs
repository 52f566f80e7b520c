use guest_trace::Emitter;
use guest_trace::Event;
use guest_trace::LogLevel;
use guest_trace::SpanId;
use guest_trace::UsageError;

#[test]
fn balanced_enter_exit_returns_to_empty() {
    let mut e = Emitter::new();
    let a = e.enter("a".to_string());
    let b = e.enter("b".to_string());
    assert_eq!(a, Ok(SpanId { depth: 0 }));
    assert_eq!(b, Ok(SpanId { depth: 1 }));
    assert_eq!(e.exit(), Ok(()));
    assert_eq!(e.exit(), Ok(()));
    assert!(e.span_stack().is_empty());
    let events = e.events();
    assert_eq!(events.len(), 4);
    assert!(matches!(&events[0], Event::SpanEnter(n) if n == "a"));
    assert!(matches!(&events[1], Event::SpanEnter(n) if n == "b"));
    assert!(matches!(&events[2], Event::SpanExit));
    assert!(matches!(&events[3], Event::SpanExit));
}

#[test]
fn exit_with_nothing_entered_is_fatal_and_sends_nothing() {
    let mut e = Emitter::new();
    assert_eq!(e.exit(), Err(UsageError::ExitOnEmpty));
    assert_eq!(e.events().len(), 0);
    assert!(e.span_stack().is_empty());
}

#[test]
fn exit_after_emptying_is_fatal_again() {
    let mut e = Emitter::new();
    e.enter("a".to_string()).unwrap();
    e.exit().unwrap();
    assert_eq!(e.exit(), Err(UsageError::ExitOnEmpty));
    assert_eq!(e.events().len(), 2);
}

#[test]
fn empty_name_always_fails_nonempty_always_succeeds() {
    let mut e = Emitter::new();
    assert_eq!(e.enter(String::new()), Err(UsageError::EmptyName));
    assert_eq!(e.events().len(), 0);
    assert!(e.enter("x".to_string()).is_ok());
    assert_eq!(e.current().map(|s| s.as_str()), Some("x"));
    assert_eq!(e.enter(String::new()), Err(UsageError::EmptyName));
    assert_eq!(e.current().map(|s| s.as_str()), Some("x"));
}

#[test]
fn current_follows_the_top_of_the_stack() {
    let mut e = Emitter::new();
    assert!(e.current().is_none());
    e.enter("outer".to_string()).unwrap();
    assert_eq!(e.current().map(|s| s.as_str()), Some("outer"));
    e.enter("inner".to_string()).unwrap();
    assert_eq!(e.current().map(|s| s.as_str()), Some("inner"));
    e.exit().unwrap();
    assert_eq!(e.current().map(|s| s.as_str()), Some("outer"));
    e.exit().unwrap();
    assert!(e.current().is_none());
    assert_eq!(e.span_stack().depth(), 0);
}

#[test]
fn log_forwards_level_and_bytes_verbatim() {
    let mut e = Emitter::new();
    e.enter("hello world".to_string()).unwrap();
    e.log(LogLevel::Info, b"hello world");
    e.exit().unwrap();
    let events = e.events();
    assert_eq!(events.len(), 3);
    assert!(matches!(&events[1], Event::Log(LogLevel::Info, m) if m == b"hello world"));
}

#[test]
fn log_accepts_bytes_that_are_not_text() {
    let mut e = Emitter::new();
    e.log(LogLevel::Error, &[0xff, 0xfe, 0x00, 0x80]);
    let events = e.events();
    assert!(matches!(&events[0], Event::Log(LogLevel::Error, m) if m == &[0xff, 0xfe, 0x00, 0x80]));
}

#[test]
fn tags_are_forwarded_without_a_span_too() {
    let mut e = Emitter::new();
    e.tag(vec!["k:v".to_string(), "x:y".to_string()]);
    let events = e.events();
    assert_eq!(events.len(), 1);
    assert!(matches!(&events[0], Event::Tags(ts) if ts == &["k:v", "x:y"]));
}
