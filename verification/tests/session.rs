use stream_relay::message::{EgressAction, Inbound, SharingStatus};
use stream_relay::relay::Relay;
use stream_relay::session::{Session, SessionState};

fn active_session(relay: &Relay) -> Session {
    let mut session = Session::new();
    assert!(session.upgraded(relay).is_some());
    assert!(session.announced());
    session
}

#[test]
fn a_new_session_is_connecting() {
    let session = Session::new();
    assert_eq!(session.state(), SessionState::Connecting);
    assert!(!session.ingest_running());
    assert!(!session.egress_running());
}

#[test]
fn a_session_walks_through_its_states_in_order() {
    let mut relay = Relay::new(4);
    let mut session = Session::new();
    assert_eq!(session.state(), SessionState::Connecting);
    assert_eq!(session.upgraded(&relay), Some(SharingStatus::Available));
    assert_eq!(session.state(), SessionState::Announcing);
    assert!(session.announced());
    assert_eq!(session.state(), SessionState::Active);
    assert!(session.ingest_running());
    assert!(session.egress_running());
    assert!(session.ingest_closed(&mut relay));
    assert_eq!(session.state(), SessionState::Closing);
    assert!(!session.ingest_running());
    assert!(session.egress_running());
    assert!(session.egress_closed());
    assert_eq!(session.state(), SessionState::Closed);
    assert!(!session.ingest_running());
    assert!(!session.egress_running());
}

#[test]
fn egress_may_end_before_ingest() {
    let mut relay = Relay::new(4);
    let mut session = active_session(&relay);
    assert!(session.egress_closed());
    assert_eq!(session.state(), SessionState::Closing);
    assert!(session.ingest_running());
    assert!(!session.egress_running());
    assert!(session.ingest(&mut relay, Inbound::Binary(vec![1])));
    assert!(session.ingest_closed(&mut relay));
    assert_eq!(session.state(), SessionState::Closed);
}

#[test]
fn a_session_is_notified_once() {
    let relay = Relay::new(4);
    let mut session = Session::new();
    assert_eq!(session.upgraded(&relay), Some(SharingStatus::Available));
    assert_eq!(session.upgraded(&relay), None);
    assert_eq!(session.state(), SessionState::Announcing);
    assert!(session.announced());
    assert_eq!(session.upgraded(&relay), None);
    assert_eq!(session.state(), SessionState::Active);
}

#[test]
fn the_notification_reports_the_arbiter_at_the_upgrade() {
    let mut relay = Relay::new(4);
    relay.arbiter.set_sharing(true);
    let mut session = Session::new();
    assert_eq!(session.upgraded(&relay), Some(SharingStatus::Busy));
    relay.arbiter.set_sharing(false);
    let mut next = Session::new();
    assert_eq!(next.upgraded(&relay), Some(SharingStatus::Available));
}

#[test]
fn nothing_is_forwarded_before_the_notification_is_over() {
    let mut relay = Relay::new(4);
    let sharer = active_session(&relay);
    let mut viewer = Session::new();
    assert_eq!(viewer.egress(&relay), EgressAction::Stop);
    assert!(viewer.upgraded(&relay).is_some());
    assert!(sharer.ingest(&mut relay, Inbound::Binary(vec![1])));
    assert_eq!(viewer.egress(&relay), EgressAction::Stop);
    assert!(viewer.announced());
    assert_eq!(viewer.egress(&relay), EgressAction::Forward(vec![1]));
}

#[test]
fn announcing_twice_starts_the_duties_once() {
    let relay = Relay::new(4);
    let mut session = Session::new();
    assert!(!session.announced());
    assert_eq!(session.state(), SessionState::Connecting);
    assert!(session.upgraded(&relay).is_some());
    assert!(session.announced());
    assert!(!session.announced());
    assert_eq!(session.state(), SessionState::Active);
}

#[test]
fn messages_are_dropped_while_ingest_is_not_running() {
    let mut relay = Relay::new(4);
    let mut session = Session::new();
    assert!(!session.ingest(&mut relay, Inbound::Binary(vec![1])));
    assert!(session.upgraded(&relay).is_some());
    assert!(!session.ingest(&mut relay, Inbound::Binary(vec![1])));
    assert!(!relay.arbiter.is_sharing());
    assert_eq!(relay.bus.published(), 0);
    assert!(session.announced());
    assert!(session.ingest_closed(&mut relay));
    assert!(!session.ingest(&mut relay, Inbound::Binary(vec![1])));
    assert!(!relay.arbiter.is_sharing());
    assert_eq!(relay.bus.published(), 0);
}

#[test]
fn ending_a_duty_that_is_not_running_changes_nothing() {
    let mut relay = Relay::new(4);
    let sharer = active_session(&relay);
    assert!(sharer.ingest(&mut relay, Inbound::Binary(vec![1])));
    let mut session = Session::new();
    assert!(!session.ingest_closed(&mut relay));
    assert!(!session.egress_closed());
    assert_eq!(session.state(), SessionState::Connecting);
    assert!(relay.arbiter.is_sharing());
    assert!(session.upgraded(&relay).is_some());
    assert!(!session.ingest_closed(&mut relay));
    assert_eq!(session.state(), SessionState::Announcing);
    assert!(relay.arbiter.is_sharing());
    assert!(session.announced());
    assert!(session.ingest_closed(&mut relay));
    assert!(!relay.arbiter.is_sharing());
    assert!(sharer.ingest(&mut relay, Inbound::Binary(vec![2])));
    assert!(!session.ingest_closed(&mut relay));
    assert!(relay.arbiter.is_sharing());
    assert_eq!(session.state(), SessionState::Closing);
}

#[test]
fn the_first_binary_frame_marks_the_relay_as_sharing() {
    let mut relay = Relay::new(4);
    let sharer = active_session(&relay);
    assert!(!sharer.ingest(&mut relay, Inbound::Other));
    assert!(!relay.arbiter.is_sharing());
    assert!(sharer.ingest(&mut relay, Inbound::Binary(vec![1, 2, 3])));
    assert!(relay.arbiter.is_sharing());
    assert!(sharer.ingest(&mut relay, Inbound::Binary(vec![4, 5, 6])));
    assert!(relay.arbiter.is_sharing());
}

#[test]
fn a_session_receives_its_own_frames() {
    let mut relay = Relay::new(4);
    let mut sharer = active_session(&relay);
    assert!(sharer.ingest(&mut relay, Inbound::Binary(vec![42])));
    assert_eq!(sharer.egress(&relay), EgressAction::Forward(vec![42]));
    assert_eq!(sharer.egress(&relay), EgressAction::Wait);
}

#[test]
fn the_end_of_ingest_does_not_stop_egress() {
    let mut relay = Relay::new(4);
    let mut viewer = active_session(&relay);
    let sharer = active_session(&relay);
    assert!(viewer.ingest_closed(&mut relay));
    assert!(sharer.ingest(&mut relay, Inbound::Binary(vec![7])));
    assert_eq!(viewer.egress(&relay), EgressAction::Forward(vec![7]));
    assert_eq!(viewer.egress(&relay), EgressAction::Wait);
}

#[test]
fn the_end_of_egress_stops_forwarding() {
    let mut relay = Relay::new(4);
    let mut viewer = active_session(&relay);
    let sharer = active_session(&relay);
    assert!(sharer.ingest(&mut relay, Inbound::Binary(vec![7])));
    assert!(viewer.egress_closed());
    assert!(!viewer.egress_closed());
    assert_eq!(viewer.egress(&relay), EgressAction::Stop);
}

#[test]
fn the_end_of_any_ingest_clears_the_mark_of_another_sharer() {
    let mut relay = Relay::new(4);
    let sharer = active_session(&relay);
    let mut viewer = active_session(&relay);
    assert!(sharer.ingest(&mut relay, Inbound::Binary(vec![1])));
    assert!(relay.arbiter.is_sharing());
    assert!(viewer.ingest_closed(&mut relay));
    assert!(!relay.arbiter.is_sharing());
    assert!(sharer.ingest(&mut relay, Inbound::Binary(vec![2])));
    assert!(relay.arbiter.is_sharing());
}

#[test]
fn two_sessions_may_share_at_once() {
    let mut relay = Relay::new(8);
    let first = active_session(&relay);
    let second = active_session(&relay);
    let mut viewer = active_session(&relay);
    assert!(first.ingest(&mut relay, Inbound::Binary(vec![1])));
    assert!(second.ingest(&mut relay, Inbound::Binary(vec![2])));
    assert!(first.ingest(&mut relay, Inbound::Binary(vec![3])));
    assert_eq!(viewer.egress(&relay), EgressAction::Forward(vec![1]));
    assert_eq!(viewer.egress(&relay), EgressAction::Forward(vec![2]));
    assert_eq!(viewer.egress(&relay), EgressAction::Forward(vec![3]));
    assert_eq!(viewer.egress(&relay), EgressAction::Wait);
}

#[test]
fn a_slow_viewer_silently_resumes_with_the_retained_frames() {
    let mut relay = Relay::new(50);
    let sharer = active_session(&relay);
    let mut viewer = active_session(&relay);
    for tag in 0..51u8 {
        assert!(sharer.ingest(&mut relay, Inbound::Binary(vec![tag])));
    }
    for tag in 1..51u8 {
        assert_eq!(viewer.egress(&relay), EgressAction::Forward(vec![tag]));
    }
    assert_eq!(viewer.egress(&relay), EgressAction::Wait);
}

#[test]
fn egress_stops_when_the_bus_is_closed() {
    let mut relay = Relay::new(4);
    let sharer = active_session(&relay);
    let mut viewer = active_session(&relay);
    assert!(sharer.ingest(&mut relay, Inbound::Binary(vec![1])));
    relay.bus.close();
    assert_eq!(viewer.egress(&relay), EgressAction::Forward(vec![1]));
    assert_eq!(viewer.egress(&relay), EgressAction::Stop);
    assert!(viewer.egress_closed());
    assert_eq!(viewer.state(), SessionState::Closing);
}

#[test]
fn viewer_connecting_before_the_first_frame_is_told_available() {
    let mut relay = Relay::new(50);
    let mut viewer_a = Session::new();
    assert_eq!(
        viewer_a.upgraded(&relay).map(SharingStatus::message),
        Some(r#"{"type":"sharing_status","status":"available"}"#)
    );
    assert!(viewer_a.announced());

    let mut sharer = Session::new();
    assert_eq!(sharer.upgraded(&relay), Some(SharingStatus::Available));
    assert!(sharer.announced());

    // Viewer B connects before the sharer's first frame is taken in.
    let mut viewer_b = Session::new();
    assert_eq!(viewer_b.upgraded(&relay), Some(SharingStatus::Available));
    assert!(viewer_b.announced());

    assert!(sharer.ingest(&mut relay, Inbound::Binary(vec![1])));
    assert!(sharer.ingest(&mut relay, Inbound::Binary(vec![2])));
    assert!(sharer.ingest(&mut relay, Inbound::Binary(vec![3])));

    assert_eq!(viewer_a.egress(&relay), EgressAction::Forward(vec![1]));
    assert_eq!(viewer_a.egress(&relay), EgressAction::Forward(vec![2]));
    assert_eq!(viewer_a.egress(&relay), EgressAction::Forward(vec![3]));
    assert_eq!(viewer_a.egress(&relay), EgressAction::Wait);

    assert_eq!(viewer_b.egress(&relay), EgressAction::Forward(vec![1]));
    assert_eq!(viewer_b.egress(&relay), EgressAction::Forward(vec![2]));
    assert_eq!(viewer_b.egress(&relay), EgressAction::Forward(vec![3]));
    assert_eq!(viewer_b.egress(&relay), EgressAction::Wait);
}

#[test]
fn viewer_connecting_mid_stream_is_told_busy_and_gets_later_frames_only() {
    let mut relay = Relay::new(50);
    let mut viewer_a = Session::new();
    assert_eq!(viewer_a.upgraded(&relay), Some(SharingStatus::Available));
    assert!(viewer_a.announced());

    let mut sharer = Session::new();
    assert_eq!(sharer.upgraded(&relay), Some(SharingStatus::Available));
    assert!(sharer.announced());
    assert!(sharer.ingest(&mut relay, Inbound::Binary(vec![1])));

    // Viewer B connects after the first frame and before the other two.
    let mut viewer_b = Session::new();
    assert_eq!(
        viewer_b.upgraded(&relay).map(SharingStatus::message),
        Some(r#"{"type":"sharing_status","status":"busy"}"#)
    );
    assert!(viewer_b.announced());

    assert!(sharer.ingest(&mut relay, Inbound::Binary(vec![2])));
    assert!(sharer.ingest(&mut relay, Inbound::Binary(vec![3])));

    assert_eq!(viewer_a.egress(&relay), EgressAction::Forward(vec![1]));
    assert_eq!(viewer_a.egress(&relay), EgressAction::Forward(vec![2]));
    assert_eq!(viewer_a.egress(&relay), EgressAction::Forward(vec![3]));
    assert_eq!(viewer_a.egress(&relay), EgressAction::Wait);

    assert_eq!(viewer_b.egress(&relay), EgressAction::Forward(vec![2]));
    assert_eq!(viewer_b.egress(&relay), EgressAction::Forward(vec![3]));
    assert_eq!(viewer_b.egress(&relay), EgressAction::Wait);
}

#[test]
fn viewer_connecting_after_the_sharer_dropped_is_told_available() {
    let mut relay = Relay::new(50);
    let mut sharer = Session::new();
    assert_eq!(sharer.upgraded(&relay), Some(SharingStatus::Available));
    assert!(sharer.announced());
    assert!(sharer.ingest(&mut relay, Inbound::Binary(vec![1])));
    assert!(sharer.ingest(&mut relay, Inbound::Binary(vec![2])));

    let mut during = Session::new();
    assert_eq!(during.upgraded(&relay), Some(SharingStatus::Busy));

    // The sharer's connection breaks: its read fails, then its send.
    assert!(sharer.ingest_closed(&mut relay));
    assert!(sharer.egress_closed());
    assert_eq!(sharer.state(), SessionState::Closed);

    let mut viewer = Session::new();
    assert_eq!(
        viewer.upgraded(&relay).map(SharingStatus::message),
        Some(r#"{"type":"sharing_status","status":"available"}"#)
    );
    assert!(viewer.announced());
    assert_eq!(viewer.egress(&relay), EgressAction::Wait);
}
