use ssh_session::reader::{
    data_event_name, dispatch_events, exit_event_name, exit_notification, reader_step,
    ChannelEvent, Notification, StepResult,
};

fn expect_data(n: &Notification, name: &str, text: &str) {
    match n {
        Notification::Data { name: got_name, text: got_text } => {
            assert_eq!(got_name.as_str(), name);
            assert_eq!(got_text.as_str(), text);
        }
        Notification::Exit { .. } => panic!("expected a data notification"),
    }
}

fn expect_exit(n: &Notification, name: &str) {
    match n {
        Notification::Exit { name: got_name } => assert_eq!(got_name.as_str(), name),
        Notification::Data { .. } => panic!("expected the exit notification"),
    }
}

#[test]
fn eof_cuts_the_stream() {
    let events = vec![
        ChannelEvent::Data(b"hi".to_vec()),
        ChannelEvent::Other,
        ChannelEvent::Data(b"there".to_vec()),
        ChannelEvent::Eof,
        ChannelEvent::Data(b"after eof".to_vec()),
    ];
    let notes = dispatch_events("s1", &events);
    assert_eq!(notes.len(), 3);
    expect_data(&notes[0], "term-data-s1", "hi");
    expect_data(&notes[1], "term-data-s1", "there");
    expect_exit(&notes[2], "term-exit-s1");
}

#[test]
fn exhaustion_without_eof_still_exits_once() {
    let events = vec![ChannelEvent::Data(b"a".to_vec()), ChannelEvent::Other];
    let notes = dispatch_events("s2", &events);
    assert_eq!(notes.len(), 2);
    expect_data(&notes[0], "term-data-s2", "a");
    expect_exit(&notes[1], "term-exit-s2");
}

#[test]
fn empty_stream_emits_only_exit() {
    let notes = dispatch_events("s3", &vec![]);
    assert_eq!(notes.len(), 1);
    expect_exit(&notes[0], "term-exit-s3");
}

#[test]
fn invalid_bytes_are_replaced_and_loop_continues() {
    let events = vec![
        ChannelEvent::Data(vec![0xff, 0xfe, 0x68]),
        ChannelEvent::Data(b"ok".to_vec()),
        ChannelEvent::Eof,
    ];
    let notes = dispatch_events("s4", &events);
    assert_eq!(notes.len(), 3);
    expect_data(&notes[0], "term-data-s4", "\u{FFFD}\u{FFFD}h");
    expect_data(&notes[1], "term-data-s4", "ok");
    expect_exit(&notes[2], "term-exit-s4");
}

#[test]
fn step_forwards_data() {
    let r = reader_step("id", Some(ChannelEvent::Data(b"x".to_vec())));
    match r {
        StepResult::Forward(n) => expect_data(&n, "term-data-id", "x"),
        _ => panic!("expected a forwarded notification"),
    }
}

#[test]
fn step_ends_on_eof_and_exhaustion() {
    assert!(matches!(reader_step("id", Some(ChannelEvent::Eof)), StepResult::End));
    assert!(matches!(reader_step("id", None), StepResult::End));
}

#[test]
fn step_ignores_other_events() {
    assert!(matches!(reader_step("id", Some(ChannelEvent::Other)), StepResult::Continue));
}

#[test]
fn event_names_carry_the_session_id() {
    assert_eq!(data_event_name("abc").as_str(), "term-data-abc");
    assert_eq!(exit_event_name("abc").as_str(), "term-exit-abc");
    expect_exit(&exit_notification("abc"), "term-exit-abc");
}

#[test]
fn two_sessions_keep_their_own_order_and_tags() {
    let a_events = vec![
        ChannelEvent::Data(b"a1".to_vec()),
        ChannelEvent::Data(b"a2".to_vec()),
        ChannelEvent::Eof,
    ];
    let b_events = vec![ChannelEvent::Data(b"b1".to_vec())];
    let a_notes = dispatch_events("A", &a_events);
    let b_notes = dispatch_events("B", &b_events);
    expect_data(&a_notes[0], "term-data-A", "a1");
    expect_data(&a_notes[1], "term-data-A", "a2");
    expect_exit(&a_notes[2], "term-exit-A");
    expect_data(&b_notes[0], "term-data-B", "b1");
    expect_exit(&b_notes[1], "term-exit-B");
    assert_ne!(data_event_name("A"), data_event_name("B"));
    assert_ne!(exit_event_name("A"), exit_event_name("B"));
}
