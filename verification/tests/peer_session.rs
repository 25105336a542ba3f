use terminate_relay::client::web::{
    is_presumed_dead, PeerAction, PeerEvent, PeerPhase, PeerSession, WebEvent, EVENT_BACKLOG,
    HEARTBEAT_INTERVAL_SECS, LIVENESS_WINDOW_SECS, TICKS_PER_SEC,
};
use terminate_relay::frame::Frame;

const SEC: u64 = 1_000_000_000;

fn live(uuid: &str, now: u64) -> PeerSession {
    let mut session = PeerSession::new(uuid.to_string());
    session.step(PeerEvent::Connected, now);
    session.step(PeerEvent::HandshakeSent, now);
    assert_eq!(session.phase(), PeerPhase::Live { last_seen: now });
    session
}

fn from_hub(payload: &str) -> PeerEvent {
    PeerEvent::Frame(Frame::Text(payload.to_string()))
}

#[test]
fn heartbeat_constants() {
    assert_eq!(HEARTBEAT_INTERVAL_SECS, 10);
    assert_eq!(LIVENESS_WINDOW_SECS, 30);
    assert_eq!(TICKS_PER_SEC, SEC);
    assert_eq!(EVENT_BACKLOG, 64);
}

#[test]
fn peer_presents_its_identifier_on_connect() {
    let mut session = PeerSession::new("alice".to_string());
    assert_eq!(session.phase(), PeerPhase::Connecting);
    assert!(!session.auth_sent());
    assert_eq!(
        session.step(PeerEvent::Connected, 7 * SEC),
        PeerAction::Send(r#"{"type":"Auth","uuid":"alice"}"#.to_string())
    );
    assert_eq!(session.phase(), PeerPhase::AwaitingAuthAck { last_seen: 7 * SEC });
    assert!(session.auth_sent());
    assert_eq!(session.step(PeerEvent::HandshakeSent, 8 * SEC), PeerAction::Idle);
    assert_eq!(session.phase(), PeerPhase::Live { last_seen: 7 * SEC });
    assert!(session.auth_sent());
    assert!(!session.is_closed());
}

#[test]
fn challenge_makes_the_peer_present_its_identifier_again() {
    let mut session = live("alice", 0);
    assert_eq!(
        session.step(from_hub("auth"), SEC),
        PeerAction::Send(r#"{"type":"Auth","uuid":"alice"}"#.to_string())
    );
    assert_eq!(session.phase(), PeerPhase::Live { last_seen: 0 });
}

#[test]
fn pong_is_remembered() {
    let mut session = live("alice", 0);
    assert_eq!(session.step(PeerEvent::Frame(Frame::Pong), 12 * SEC), PeerAction::Idle);
    assert_eq!(session.phase(), PeerPhase::Live { last_seen: 12 * SEC });
}

#[test]
fn heartbeat_within_the_window_pings() {
    let mut session = live("alice", 5 * SEC);
    assert_eq!(session.step(PeerEvent::Heartbeat, 15 * SEC), PeerAction::Ping);
    assert_eq!(session.step(PeerEvent::Heartbeat, 35 * SEC - 1), PeerAction::Ping);
    assert_eq!(session.step(PeerEvent::Heartbeat, 35 * SEC), PeerAction::Ping);
    assert_eq!(session.phase(), PeerPhase::Live { last_seen: 5 * SEC });
}

#[test]
fn heartbeat_after_the_window_closes() {
    let mut session = live("alice", 5 * SEC);
    assert_eq!(session.step(PeerEvent::Heartbeat, 35 * SEC + 1), PeerAction::Close);
    assert!(session.is_closed());
    assert_eq!(session.phase(), PeerPhase::Closed);
}

#[test]
fn liveness_window_is_exact_to_the_tick() {
    assert!(!is_presumed_dead(0, 0));
    assert!(!is_presumed_dead(0, 30 * SEC - 1));
    assert!(!is_presumed_dead(0, 30 * SEC));
    assert!(is_presumed_dead(0, 30 * SEC + 1));
    assert!(is_presumed_dead(0, 31 * SEC - 1));
    assert!(is_presumed_dead(0, 31 * SEC));
    assert!(is_presumed_dead(0, u64::MAX));
    assert!(!is_presumed_dead(u64::MAX, u64::MAX));
    assert!(!is_presumed_dead(2 * SEC, 32 * SEC));
    assert!(is_presumed_dead(2 * SEC, 32 * SEC + 1));
    assert!(is_presumed_dead(2 * SEC, 32 * SEC + 999_999_999));
    assert!(is_presumed_dead(2 * SEC, 33 * SEC));
    assert!(!is_presumed_dead(u64::MAX - 30 * SEC, u64::MAX));
    assert!(is_presumed_dead(u64::MAX - 30 * SEC - 1, u64::MAX));
}

#[test]
fn silence_of_a_fraction_over_the_window_closes() {
    let mut session = live("alice", 0);
    assert_eq!(session.step(PeerEvent::Frame(Frame::Pong), 5 * SEC), PeerAction::Idle);
    assert_eq!(session.step(PeerEvent::Heartbeat, 35 * SEC), PeerAction::Ping);
    assert_eq!(session.phase(), PeerPhase::Live { last_seen: 5 * SEC });
    assert_eq!(session.step(PeerEvent::Heartbeat, 35 * SEC + SEC / 2), PeerAction::Close);
    assert_eq!(session.phase(), PeerPhase::Closed);
}

#[test]
fn clock_that_reads_less_counts_as_no_silence() {
    assert!(!is_presumed_dead(100 * SEC, 0));
    let mut session = live("alice", 100 * SEC);
    assert_eq!(session.step(PeerEvent::Heartbeat, 0), PeerAction::Ping);
}

#[test]
fn pongs_within_the_window_keep_the_session_live() {
    let mut session = live("alice", 0);
    let mut now = 0;
    for _ in 0..100 {
        for _ in 0..3 {
            now += 10 * SEC;
            assert_eq!(session.step(PeerEvent::Heartbeat, now), PeerAction::Ping);
        }
        assert_eq!(session.step(PeerEvent::Frame(Frame::Pong), now), PeerAction::Idle);
        assert_eq!(session.phase(), PeerPhase::Live { last_seen: now });
    }
    assert!(!session.is_closed());
}

#[test]
fn silence_closes_at_the_first_heartbeat_past_the_window() {
    let mut session = live("alice", 0);
    assert_eq!(session.step(PeerEvent::Frame(Frame::Pong), 4 * SEC), PeerAction::Idle);
    assert_eq!(session.step(PeerEvent::Heartbeat, 10 * SEC), PeerAction::Ping);
    assert_eq!(session.step(PeerEvent::Heartbeat, 20 * SEC), PeerAction::Ping);
    assert_eq!(session.step(PeerEvent::Heartbeat, 30 * SEC), PeerAction::Ping);
    assert_eq!(session.step(PeerEvent::Heartbeat, 40 * SEC), PeerAction::Close);
    assert!(session.is_closed());
}

#[test]
fn hotkey_terminates_here_and_asks_the_fleet() {
    let mut session = live("alice", 0);
    assert_eq!(
        session.step(PeerEvent::Local(WebEvent::SendTerminate), SEC),
        PeerAction::TerminateAndSend(r#"{"type":"RequestTerminate"}"#.to_string())
    );
    assert_eq!(session.phase(), PeerPhase::Live { last_seen: 0 });
}

#[test]
fn notice_of_a_request_terminates_here() {
    let mut session = live("bob", 0);
    assert_eq!(session.step(from_hub("terminate alice"), SEC), PeerAction::Terminate);
    assert_eq!(session.step(from_hub("terminate "), SEC), PeerAction::Terminate);
    assert_eq!(session.phase(), PeerPhase::Live { last_seen: 0 });
}

#[test]
fn other_text_is_passed_over() {
    let mut session = live("bob", 0);
    for payload in ["", "terminate", "Terminate alice", " auth", "auth ", "AUTH", "hello"] {
        assert_eq!(session.step(from_hub(payload), SEC), PeerAction::Idle);
        assert_eq!(session.phase(), PeerPhase::Live { last_seen: 0 });
    }
}

#[test]
fn frames_without_meaning_are_passed_over() {
    let mut session = live("bob", 0);
    assert_eq!(session.step(PeerEvent::Frame(Frame::Ping), SEC), PeerAction::Idle);
    assert_eq!(session.step(PeerEvent::Frame(Frame::Binary(b"auth".to_vec())), SEC), PeerAction::Idle);
    assert_eq!(session.step(PeerEvent::Connected, SEC), PeerAction::Idle);
    assert_eq!(session.step(PeerEvent::HandshakeSent, SEC), PeerAction::Idle);
    assert_eq!(session.phase(), PeerPhase::Live { last_seen: 0 });
}

#[test]
fn farewell_from_the_hub_closes() {
    let mut session = live("bob", 0);
    assert_eq!(session.step(from_hub("close"), SEC), PeerAction::Close);
    assert!(session.is_closed());
    let mut session = live("bob", 0);
    assert_eq!(session.step(PeerEvent::Frame(Frame::Close), SEC), PeerAction::Close);
    assert!(session.is_closed());
}

#[test]
fn stop_closes_gracefully() {
    let mut session = live("bob", 0);
    assert_eq!(session.step(PeerEvent::Local(WebEvent::Stop), SEC), PeerAction::Close);
    assert!(session.is_closed());
}

#[test]
fn stop_before_the_connection_needs_no_frame() {
    let mut session = PeerSession::new("bob".to_string());
    assert_eq!(session.step(PeerEvent::Local(WebEvent::Stop), 0), PeerAction::Idle);
    assert!(session.is_closed());
}

#[test]
fn stop_during_the_handshake_closes() {
    let mut session = PeerSession::new("bob".to_string());
    session.step(PeerEvent::Connected, 0);
    assert_eq!(session.step(PeerEvent::Local(WebEvent::Stop), 0), PeerAction::Close);
    assert!(session.is_closed());
}

#[test]
fn failure_aborts_in_every_open_phase() {
    let mut session = PeerSession::new("bob".to_string());
    assert_eq!(session.step(PeerEvent::TransportFailed, 0), PeerAction::Abort);
    assert!(session.is_closed());

    let mut session = PeerSession::new("bob".to_string());
    session.step(PeerEvent::Connected, 0);
    assert_eq!(session.step(PeerEvent::TransportFailed, 0), PeerAction::Abort);
    assert!(session.is_closed());

    let mut session = live("bob", 0);
    assert_eq!(session.step(PeerEvent::TransportFailed, 0), PeerAction::Abort);
    assert!(session.is_closed());
}

#[test]
fn events_out_of_turn_change_nothing() {
    let mut session = PeerSession::new("bob".to_string());
    for event in [
        PeerEvent::HandshakeSent,
        PeerEvent::Heartbeat,
        from_hub("auth"),
        PeerEvent::Frame(Frame::Pong),
        PeerEvent::Local(WebEvent::SendTerminate),
    ] {
        assert_eq!(session.step(event, 50 * SEC), PeerAction::Idle);
        assert_eq!(session.phase(), PeerPhase::Connecting);
    }
    session.step(PeerEvent::Connected, 0);
    for event in [
        PeerEvent::Connected,
        PeerEvent::Heartbeat,
        from_hub("auth"),
        PeerEvent::Frame(Frame::Pong),
        PeerEvent::Local(WebEvent::SendTerminate),
    ] {
        assert_eq!(session.step(event, 50 * SEC), PeerAction::Idle);
        assert_eq!(session.phase(), PeerPhase::AwaitingAuthAck { last_seen: 0 });
    }
}

#[test]
fn closed_peer_session_does_nothing_more() {
    let mut session = live("bob", 0);
    session.step(PeerEvent::Local(WebEvent::Stop), 0);
    for event in [
        PeerEvent::Connected,
        PeerEvent::HandshakeSent,
        PeerEvent::Heartbeat,
        from_hub("auth"),
        from_hub("terminate alice"),
        PeerEvent::Frame(Frame::Pong),
        PeerEvent::Frame(Frame::Close),
        PeerEvent::Local(WebEvent::SendTerminate),
        PeerEvent::Local(WebEvent::Stop),
        PeerEvent::TransportFailed,
    ] {
        assert_eq!(session.step(event, 99 * SEC), PeerAction::Idle);
        assert_eq!(session.phase(), PeerPhase::Closed);
    }
}
