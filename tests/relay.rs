use chat_relay::endpoint::{post, rocket};
use chat_relay::hub::{Hub, RecvOutcome, SendError, CAPACITY};
use chat_relay::message::{Message, ValidationError};
use chat_relay::stream::{Poll, Shutdown, StreamingLoop};

fn msg(i: usize) -> Message {
    Message {
        room: "lobby".to_string(),
        username: "bob".to_string(),
        message: format!("m{}", i),
    }
}

fn text(m: &Message) -> String {
    m.message.clone()
}

#[test]
fn room_length_limit() {
    let ok = Message::validate("r".repeat(30), "u".to_string(), "x".to_string());
    assert!(ok.is_ok());
    let bad = Message::validate("r".repeat(31), "u".to_string(), "x".to_string());
    assert_eq!(bad.err(), Some(ValidationError::RoomTooLong));
}

#[test]
fn username_length_limit() {
    let ok = Message::validate("lobby".to_string(), "u".repeat(20), "x".to_string());
    assert!(ok.is_ok());
    let bad = Message::validate("lobby".to_string(), "u".repeat(21), "x".to_string());
    assert_eq!(bad.err(), Some(ValidationError::UsernameTooLong));
}

#[test]
fn room_checked_before_username() {
    let bad = Message::validate("r".repeat(31), "u".repeat(21), "x".to_string());
    assert_eq!(bad.err(), Some(ValidationError::RoomTooLong));
}

#[test]
fn long_message_text_is_accepted() {
    let ok = Message::validate("lobby".to_string(), "amy".to_string(), "y".repeat(10_000));
    assert_eq!(ok.unwrap().message.len(), 10_000);
}

#[test]
fn lengths_count_code_units() {
    let ok = Message::validate("é".repeat(15), "ü".repeat(10), String::new());
    assert!(ok.is_ok());
    let bad = Message::validate("é".repeat(16), "u".to_string(), String::new());
    assert_eq!(bad.err(), Some(ValidationError::RoomTooLong));
    let bad = Message::validate("lobby".to_string(), "ü".repeat(11), String::new());
    assert_eq!(bad.err(), Some(ValidationError::UsernameTooLong));
}

#[test]
fn wide_characters_over_limit_never_reach_hub() {
    let mut hub = Hub::new();
    let _sub = hub.subscribe();
    let r = post(&mut hub, "\u{1F600}".repeat(16), "alice".to_string(), "hi".to_string());
    assert_eq!(r, Err(ValidationError::RoomTooLong));
    assert_eq!(hub.published(), 0);
}

#[test]
fn post_reports_long_username() {
    let mut hub = Hub::new();
    let _sub = hub.subscribe();
    let r = post(&mut hub, "lobby".to_string(), "u".repeat(21), "hi".to_string());
    assert_eq!(r, Err(ValidationError::UsernameTooLong));
    assert_eq!(hub.published(), 0);
}

#[test]
fn rejected_message_never_reaches_hub() {
    let mut hub = Hub::new();
    let _sub = hub.subscribe();
    let r = post(&mut hub, "r".repeat(31), "alice".to_string(), "hi".to_string());
    assert_eq!(r, Err(ValidationError::RoomTooLong));
    assert_eq!(hub.published(), 0);
}

#[test]
fn publish_without_subscribers_is_discarded() {
    let mut hub = Hub::new();
    assert_eq!(hub.publish(msg(0)).err(), Some(SendError::NoSubscribers));
    for i in 0..3000 {
        let r = post(&mut hub, "lobby".to_string(), "bob".to_string(), format!("m{}", i));
        assert_eq!(r, Ok(()));
    }
    assert_eq!(hub.published(), 0);
    assert_eq!(hub.buffered(), 0);
}

#[test]
fn publish_reports_subscriber_count() {
    let mut hub = Hub::new();
    let _a = hub.subscribe();
    let _b = hub.subscribe();
    assert_eq!(hub.publish(msg(0)), Ok(2));
    assert_eq!(hub.subscribers(), 2);
}

#[test]
fn buffer_never_exceeds_capacity() {
    let mut hub = Hub::new();
    let _a = hub.subscribe();
    for i in 0..3000 {
        hub.publish(msg(i)).unwrap();
    }
    assert_eq!(hub.published(), 3000);
    assert_eq!(hub.buffered(), CAPACITY);
}

#[test]
fn subscriber_receives_in_order() {
    let mut hub = Hub::new();
    let mut sub = hub.subscribe();
    let mut got = Vec::new();
    for i in 0..50 {
        hub.publish(msg(i)).unwrap();
        if i % 3 == 0 {
            while let RecvOutcome::Delivered(m) = sub.recv(&hub) {
                got.push(text(&m));
            }
        }
    }
    while let RecvOutcome::Delivered(m) = sub.recv(&hub) {
        got.push(text(&m));
    }
    let want: Vec<String> = (0..50).map(|i| format!("m{}", i)).collect();
    assert_eq!(got, want);
    assert!(matches!(sub.recv(&hub), RecvOutcome::Empty));
}

#[test]
fn late_subscriber_misses_earlier_message() {
    let mut hub = Hub::new();
    let _early = hub.subscribe();
    hub.publish(msg(0)).unwrap();
    let mut late = hub.subscribe();
    assert!(matches!(late.recv(&hub), RecvOutcome::Empty));
    hub.publish(msg(1)).unwrap();
    match late.recv(&hub) {
        RecvOutcome::Delivered(m) => assert_eq!(m.message, "m1"),
        _ => panic!("expected a delivery"),
    }
}

#[test]
fn lagging_subscriber_is_told_exact_gap() {
    let mut hub = Hub::new();
    let mut sub = hub.subscribe();
    for i in 0..1030 {
        hub.publish(msg(i)).unwrap();
    }
    match sub.recv(&hub) {
        RecvOutcome::Lagged(k) => assert_eq!(k, 6),
        _ => panic!("expected a lag"),
    }
    for i in 6..1030 {
        match sub.recv(&hub) {
            RecvOutcome::Delivered(m) => assert_eq!(m.message, format!("m{}", i)),
            _ => panic!("expected a delivery"),
        }
    }
    assert!(matches!(sub.recv(&hub), RecvOutcome::Empty));
}

#[test]
fn exactly_capacity_behind_is_no_lag() {
    let mut hub = Hub::new();
    let mut sub = hub.subscribe();
    for i in 0..CAPACITY {
        hub.publish(msg(i)).unwrap();
    }
    match sub.recv(&hub) {
        RecvOutcome::Delivered(m) => assert_eq!(m.message, "m0"),
        _ => panic!("expected a delivery"),
    }
}

#[test]
fn closed_hub_ends_after_backlog() {
    let mut hub = Hub::new();
    let mut sub = hub.subscribe();
    hub.publish(msg(0)).unwrap();
    hub.close();
    assert_eq!(hub.publish(msg(1)).err(), Some(SendError::Closed));
    assert!(matches!(sub.recv(&hub), RecvOutcome::Delivered(_)));
    assert!(matches!(sub.recv(&hub), RecvOutcome::Closed));
}

#[test]
fn unsubscribe_lowers_count() {
    let mut hub = Hub::new();
    let a = hub.subscribe();
    hub.unsubscribe(a);
    assert_eq!(hub.subscribers(), 0);
    assert_eq!(hub.publish(msg(0)).err(), Some(SendError::NoSubscribers));
}

#[test]
fn stream_emits_posted_message_once() {
    let mut hub = Hub::new();
    let shutdown = Shutdown::new();
    let mut a = StreamingLoop::open(&mut hub);
    let r = post(&mut hub, "lobby".to_string(), "alice".to_string(), "hi".to_string());
    assert_eq!(r, Ok(()));
    match a.poll(&hub, &shutdown) {
        Poll::Frame(m) => {
            assert_eq!(m.room, "lobby");
            assert_eq!(m.username, "alice");
            assert_eq!(m.message, "hi");
        }
        _ => panic!("expected a frame"),
    }
    assert!(matches!(a.poll(&hub, &shutdown), Poll::Pending));
    assert!(!a.is_finished());
}

#[test]
fn stream_skips_lag_silently() {
    let mut hub = Hub::new();
    let shutdown = Shutdown::new();
    let mut a = StreamingLoop::open(&mut hub);
    for i in 0..1100 {
        hub.publish(msg(i)).unwrap();
    }
    match a.poll(&hub, &shutdown) {
        Poll::Frame(m) => assert_eq!(m.message, "m76"),
        _ => panic!("expected a frame"),
    }
}

#[test]
fn shutdown_stops_every_loop() {
    let mut hub = Hub::new();
    let mut shutdown = Shutdown::new();
    let mut a = StreamingLoop::open(&mut hub);
    let mut b = StreamingLoop::open(&mut hub);
    hub.publish(msg(0)).unwrap();
    hub.publish(msg(1)).unwrap();
    assert!(matches!(a.poll(&hub, &shutdown), Poll::Frame(_)));
    shutdown.raise();
    assert!(shutdown.is_raised());
    assert!(matches!(a.poll(&hub, &shutdown), Poll::Finished));
    assert!(matches!(b.poll(&hub, &shutdown), Poll::Finished));
    assert!(a.is_finished() && b.is_finished());
    assert!(matches!(a.poll(&hub, &shutdown), Poll::Finished));
    a.close(&mut hub);
    b.close(&mut hub);
    assert_eq!(hub.subscribers(), 0);
}

#[test]
fn stream_ends_when_hub_closes() {
    let mut hub = Hub::new();
    let shutdown = Shutdown::new();
    let mut a = StreamingLoop::open(&mut hub);
    hub.close();
    assert!(matches!(a.poll(&hub, &shutdown), Poll::Finished));
    assert!(a.is_finished());
}

#[test]
fn duplicate_is_equal_copy() {
    let m = msg(7);
    let d = m.duplicate();
    assert_eq!(d.room, m.room);
    assert_eq!(d.username, m.username);
    assert_eq!(d.message, "m7");
}

#[test]
fn fresh_relay_state() {
    let (mut hub, shutdown) = rocket();
    assert!(!shutdown.is_raised());
    assert_eq!(hub.published(), 0);
    assert_eq!(hub.subscribers(), 0);
    let _sub = hub.subscribe();
    assert_eq!(hub.publish(msg(0)), Ok(1));
}

#[test]
fn late_subscriber_on_closed_hub_gets_nothing() {
    let mut hub = Hub::new();
    let _early = hub.subscribe();
    hub.publish(msg(0)).unwrap();
    let mut late = hub.subscribe();
    hub.close();
    assert!(matches!(late.recv(&hub), RecvOutcome::Closed));
}

#[test]
fn lag_then_later_publishes_in_order() {
    let mut hub = Hub::new();
    let mut sub = hub.subscribe();
    for i in 0..1100 {
        hub.publish(msg(i)).unwrap();
    }
    assert!(matches!(sub.recv(&hub), RecvOutcome::Lagged(76)));
    let mut got = Vec::new();
    for _ in 0..10 {
        match sub.recv(&hub) {
            RecvOutcome::Delivered(m) => got.push(text(&m)),
            _ => panic!("expected a delivery"),
        }
    }
    for i in 1100..1110 {
        hub.publish(msg(i)).unwrap();
    }
    while let RecvOutcome::Delivered(m) = sub.recv(&hub) {
        got.push(text(&m));
    }
    let want: Vec<String> = (76..1110).map(|i| format!("m{}", i)).collect();
    assert_eq!(got, want);
}

#[test]
fn two_loops_see_same_order() {
    let mut hub = Hub::new();
    let shutdown = Shutdown::new();
    let mut a = StreamingLoop::open(&mut hub);
    let mut b = StreamingLoop::open(&mut hub);
    let mut got_a = Vec::new();
    let mut got_b = Vec::new();
    for i in 0..20 {
        hub.publish(msg(i)).unwrap();
        if i % 2 == 0 {
            while let Poll::Frame(m) = a.poll(&hub, &shutdown) {
                got_a.push(text(&m));
            }
        }
    }
    while let Poll::Frame(m) = a.poll(&hub, &shutdown) {
        got_a.push(text(&m));
    }
    while let Poll::Frame(m) = b.poll(&hub, &shutdown) {
        got_b.push(text(&m));
    }
    assert_eq!(got_a, got_b);
    assert_eq!(got_a.len(), 20);
}
