use track_relay::broadcast::LatestValue;
use track_relay::coordinate::Coordinate;
use track_relay::history::HistoryBuffer;
use track_relay::ingest::ingest;
use track_relay::point::TrackPoint;
use track_relay::session::{frame_update, Session, SessionAction, SessionEvent, SessionState};

fn point(id: &str, latitude: f32, longitude: f32) -> TrackPoint {
    TrackPoint::new(
        id,
        Coordinate::from_bits(latitude.to_bits()),
        Coordinate::from_bits(longitude.to_bits()),
    )
    .unwrap()
}

fn message(point: &TrackPoint) -> String {
    let latitude = f32::from_bits(point.latitude().to_bits());
    let longitude = f32::from_bits(point.longitude().to_bits());
    frame_update(point.id(), &format!("{latitude}"), &format!("{longitude}"))
}

/// What a session asks for, with the text of what it sends.
fn told(action: SessionAction) -> String {
    match action {
        SessionAction::Wait => "wait".to_string(),
        SessionAction::Send(point) => message(&point),
        SessionAction::Close => "close".to_string(),
        SessionAction::Ignore => "ignore".to_string(),
    }
}

#[test]
fn message_text_is_exact() {
    assert_eq!(frame_update("Z9", "1", "2"), "[\"Z9\",[1,2]]");
    assert_eq!(frame_update("A1B2C3", "51.5", "-0.12"), "[\"A1B2C3\",[51.5,-0.12]]");
    assert_eq!(frame_update("", "", ""), "[\"\",[,]]");
}

#[test]
fn new_session_awaits_a_change() {
    let cell = LatestValue::new();
    let session = Session::open(&cell);
    assert_eq!(session.state(), SessionState::AwaitingChange);
    assert!(!session.is_closed());
}

#[test]
fn both_sessions_receive_the_point_once() {
    let mut cell = LatestValue::new();
    let mut first = Session::open(&cell);
    let mut second = Session::open(&cell);
    cell.publish(point("Z9", 1.0, 2.0));

    assert_eq!(told(first.on_event(SessionEvent::Woken, &cell)), "[\"Z9\",[1,2]]");
    assert_eq!(first.state(), SessionState::Delivering);
    assert_eq!(told(second.on_event(SessionEvent::Woken, &cell)), "[\"Z9\",[1,2]]");
    assert_eq!(second.state(), SessionState::Delivering);

    assert_eq!(told(first.on_event(SessionEvent::Delivered, &cell)), "wait");
    assert_eq!(first.state(), SessionState::AwaitingChange);
    assert_eq!(told(second.on_event(SessionEvent::Delivered, &cell)), "wait");
    assert_eq!(told(first.on_event(SessionEvent::Woken, &cell)), "wait");
    assert_eq!(told(second.on_event(SessionEvent::Woken, &cell)), "wait");
}

#[test]
fn failed_write_closes_only_that_session() {
    let mut history = HistoryBuffer::new(10);
    let mut cell = LatestValue::new();
    let mut failing = Session::open(&cell);
    let mut healthy = Session::open(&cell);

    assert!(ingest(&mut history, &mut cell, Some(point("E1", 1.0, 1.0))));
    assert_eq!(told(failing.on_event(SessionEvent::Woken, &cell)), "[\"E1\",[1,1]]");
    assert_eq!(told(healthy.on_event(SessionEvent::Woken, &cell)), "[\"E1\",[1,1]]");
    assert_eq!(told(failing.on_event(SessionEvent::TransportFailed, &cell)), "close");
    assert!(failing.is_closed());
    assert_eq!(failing.state(), SessionState::Closed);
    assert_eq!(told(healthy.on_event(SessionEvent::Delivered, &cell)), "wait");

    assert!(ingest(&mut history, &mut cell, Some(point("E2", 2.0, 2.0))));
    assert_eq!(history.len(), 2);
    assert_eq!(cell.version(), 2);
    assert_eq!(told(healthy.on_event(SessionEvent::Woken, &cell)), "[\"E2\",[2,2]]");
    assert_eq!(told(failing.on_event(SessionEvent::Woken, &cell)), "ignore");
    assert_eq!(told(failing.on_event(SessionEvent::Delivered, &cell)), "ignore");
    assert!(failing.is_closed());
}

#[test]
fn session_that_is_woken_without_a_change_waits() {
    let cell = LatestValue::new();
    let mut session = Session::open(&cell);
    assert_eq!(told(session.on_event(SessionEvent::Woken, &cell)), "wait");
    assert_eq!(session.state(), SessionState::AwaitingChange);
}

#[test]
fn session_does_not_replay_what_was_published_before_it_opened() {
    let mut cell = LatestValue::new();
    cell.publish(point("OLD", 1.0, 1.0));
    let mut session = Session::open(&cell);
    assert_eq!(told(session.on_event(SessionEvent::Woken, &cell)), "wait");
    cell.publish(point("NEW", 2.0, 2.0));
    assert_eq!(told(session.on_event(SessionEvent::Woken, &cell)), "[\"NEW\",[2,2]]");
}

#[test]
fn publication_during_delivery_is_sent_right_after() {
    let mut cell = LatestValue::new();
    let mut session = Session::open(&cell);
    cell.publish(point("A", 1.0, 1.0));
    assert_eq!(told(session.on_event(SessionEvent::Woken, &cell)), "[\"A\",[1,1]]");
    cell.publish(point("B", 2.0, 2.0));
    cell.publish(point("C", 3.0, 3.5));
    assert_eq!(told(session.on_event(SessionEvent::Woken, &cell)), "ignore");
    assert_eq!(session.state(), SessionState::Delivering);
    assert_eq!(told(session.on_event(SessionEvent::Delivered, &cell)), "[\"C\",[3,3.5]]");
    assert_eq!(session.state(), SessionState::Delivering);
    assert_eq!(told(session.on_event(SessionEvent::Delivered, &cell)), "wait");
    assert_eq!(session.state(), SessionState::AwaitingChange);
}

#[test]
fn every_closing_event_closes_in_either_state() {
    let closing = [
        SessionEvent::BroadcasterGone,
        SessionEvent::TransportFailed,
        SessionEvent::PeerClosed,
    ];
    for event in closing {
        let mut cell = LatestValue::new();
        let mut waiting = Session::open(&cell);
        assert_eq!(told(waiting.on_event(event, &cell)), "close");
        assert!(waiting.is_closed());

        let mut delivering = Session::open(&cell);
        cell.publish(point("A", 1.0, 1.0));
        assert_eq!(told(delivering.on_event(SessionEvent::Woken, &cell)), "[\"A\",[1,1]]");
        assert_eq!(told(delivering.on_event(event, &cell)), "close");
        assert!(delivering.is_closed());
        assert_eq!(told(delivering.on_event(event, &cell)), "ignore");
    }
}

#[test]
fn delivered_out_of_place_is_ignored() {
    let mut cell = LatestValue::new();
    let mut session = Session::open(&cell);
    cell.publish(point("A", 1.0, 1.0));
    assert_eq!(told(session.on_event(SessionEvent::Delivered, &cell)), "ignore");
    assert_eq!(session.state(), SessionState::AwaitingChange);
    assert_eq!(told(session.on_event(SessionEvent::Woken, &cell)), "[\"A\",[1,1]]");
}
