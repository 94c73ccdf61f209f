use dorarobot::messages::capability::{Capabilities, Negotiated};
use dorarobot::messages::header::ControlMode;
use dorarobot::session::{Session, SessionState};
use std::time::{Duration, Instant};

fn caps() -> Capabilities {
    Capabilities {
        dof: 6,
        supported_modes: vec![ControlMode::CartesianPose],
        force_feedback: false,
        max_rate_hz: 200,
        frames: vec!["base".into()],
        end_effectors: vec!["tcp".into()],
        gripper: None,
    }
}

#[test]
fn watchdog_degrades_then_closes_then_safe_state() {
    let mut s = Session::new(1, caps(), Duration::from_millis(100));
    s.begin_handshake();
    assert!(s.on_peer_capabilities(&caps()).is_some());
    assert_eq!(s.state(), SessionState::Active);

    let t0 = Instant::now();
    assert_eq!(s.tick(t0 + Duration::from_millis(50)), SessionState::Active);
    assert_eq!(s.tick(t0 + Duration::from_millis(200)), SessionState::Degraded);
    assert!(s.should_safe_state());
    assert_eq!(s.tick(t0 + Duration::from_secs(5)), SessionState::Closed);
}

#[test]
fn session_rx_recovers_degraded_but_not_closed() {
    let mut s = Session::new(9, caps(), Duration::from_millis(100));
    assert_eq!(s.id(), 9);
    assert_eq!(s.state(), SessionState::Discovering);
    assert!(s.negotiated().is_none());
    s.begin_handshake();
    assert_eq!(s.state(), SessionState::Handshaking);
    s.on_peer_capabilities(&caps());
    assert_eq!(
        s.negotiated(),
        Some(&Negotiated { mode: ControlMode::CartesianPose, rate_hz: 200, force_feedback: false })
    );
    let t0 = Instant::now();
    assert_eq!(s.tick(t0 + Duration::from_millis(500)), SessionState::Degraded);
    s.on_rx(t0 + Duration::from_millis(500));
    assert_eq!(s.state(), SessionState::Active);
    assert!(!s.should_safe_state());
    assert_eq!(s.tick(t0 + Duration::from_secs(10)), SessionState::Closed);
    s.on_rx(t0 + Duration::from_secs(10));
    assert_eq!(s.state(), SessionState::Closed);
    assert!(s.should_safe_state());
}

#[test]
fn session_tick_ignores_sessions_not_live() {
    let mut s = Session::new(1, caps(), Duration::from_millis(1));
    let later = Instant::now() + Duration::from_secs(60);
    assert_eq!(s.tick(later), SessionState::Discovering);
    s.begin_handshake();
    assert_eq!(s.tick(later), SessionState::Handshaking);
    assert!(!s.should_safe_state());
}

#[test]
fn session_failed_negotiation_changes_nothing() {
    let mut s = Session::new(1, caps(), Duration::from_millis(100));
    s.begin_handshake();
    let mut peer = caps();
    peer.supported_modes = vec![ControlMode::Twist];
    assert!(s.on_peer_capabilities(&peer).is_none());
    assert_eq!(s.state(), SessionState::Handshaking);
    assert!(s.negotiated().is_none());
    assert_eq!(s.local_capabilities(), &caps());
}

#[test]
fn session_sequence_numbers_increase() {
    let mut s = Session::new(1, caps(), Duration::from_millis(100));
    assert_eq!(s.next_seq(), 0);
    assert_eq!(s.next_seq(), 1);
    assert_eq!(s.next_seq(), 2);
}

#[test]
fn session_apply_watchdog_steps() {
    let mut s = Session::new(1, caps(), Duration::from_millis(100));
    assert_eq!(s.apply_watchdog(true, true), SessionState::Discovering);
    s.on_peer_capabilities(&caps());
    assert_eq!(s.apply_watchdog(false, false), SessionState::Active);
    assert_eq!(s.apply_watchdog(false, true), SessionState::Degraded);
    assert_eq!(s.apply_watchdog(false, false), SessionState::Degraded);
    assert_eq!(s.apply_watchdog(true, true), SessionState::Closed);
    assert_eq!(s.apply_watchdog(false, false), SessionState::Closed);
}

#[test]
fn received_message_restarts_the_deadline() {
    let mut s = Session::new(1, caps(), Duration::from_millis(100));
    s.begin_handshake();
    assert!(s.on_peer_capabilities(&caps()).is_some());
    let t0 = Instant::now();
    assert_eq!(s.tick(t0 + Duration::from_millis(200)), SessionState::Degraded);
    s.on_rx(t0 + Duration::from_millis(300));
    assert_eq!(s.state(), SessionState::Active);
    assert_eq!(s.tick(t0 + Duration::from_millis(350)), SessionState::Active);
    assert_eq!(s.tick(t0 + Duration::from_millis(450)), SessionState::Degraded);
    assert_eq!(s.tick(t0 + Duration::from_millis(1350)), SessionState::Closed);
}
