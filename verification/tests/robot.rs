use dorarobot::daemon::commands::{ids_to_array, parse_key, parse_web_cmd};
use dorarobot::daemon::config::ZenohConfig;
use dorarobot::messages::control::ControlCommand;
use dorarobot::messages::episode::EpisodeOutcome;
use dorarobot::messages::header::ControlMode;
use dorarobot::robot::{IdentityKinematics, RobotError, SafetyLatch};
use dorarobot::teleop::DemoCartesianDevice;

#[test]
fn safety_latch_e_stop_blocks_for_good() {
    let mut l = SafetyLatch::new();
    assert!(l.admit_command().is_ok());
    assert!(!l.is_safe());
    l.e_stop();
    assert!(l.is_safe());
    match l.admit_command() {
        Err(RobotError::Hardware(m)) => assert_eq!(m, "e-stopped"),
        other => panic!("unexpected {other:?}"),
    }
    l.resume();
    l.hold();
    l.resume();
    assert!(l.admit_command().is_err());
    assert!(l.admit_alignment().is_err());
}

#[test]
fn safety_latch_hold_blocks_until_resume() {
    let mut l = SafetyLatch::default();
    l.hold();
    assert!(l.is_safe());
    assert!(l.is_holding());
    match l.admit_command() {
        Err(RobotError::Hardware(m)) => assert_eq!(m, "in safe-hold"),
        other => panic!("unexpected {other:?}"),
    }
    assert!(l.admit_alignment().is_ok());
    l.e_stop();
    assert!(l.is_safe());
    assert!(!l.is_holding()); // e_stop clears hold
    assert!(l.is_e_stopped());
    let mut l = SafetyLatch::new();
    l.hold();
    l.resume();
    assert!(!l.is_safe());
    assert!(l.admit_command().is_ok());
}

#[test]
fn console_keys_parse() {
    assert_eq!(parse_key("o\n"), Some(ControlCommand::TorqueOn));
    assert_eq!(parse_key("  x  "), Some(ControlCommand::TorqueOff));
    assert_eq!(parse_key("s"), Some(ControlCommand::StartRecord { task: "teleop".into() }));
    assert_eq!(
        parse_key("f\r\n"),
        Some(ControlCommand::EndRecord { outcome: EpisodeOutcome::Success })
    );
    assert_eq!(parse_key("\tr"), Some(ControlCommand::ReRecord));
    assert_eq!(parse_key("q\u{3000}"), Some(ControlCommand::Stop));
    assert_eq!(parse_key("oo"), None);
    assert_eq!(parse_key("O"), None);
    assert_eq!(parse_key(""), None);
    assert_eq!(parse_key("   "), None);
}

#[test]
fn web_commands_parse() {
    assert_eq!(parse_web_cmd("TorqueOn"), Some(ControlCommand::TorqueOn));
    assert_eq!(parse_web_cmd("TorqueOff"), Some(ControlCommand::TorqueOff));
    assert_eq!(
        parse_web_cmd("StartRecord"),
        Some(ControlCommand::StartRecord { task: "teleop".into() })
    );
    assert_eq!(
        parse_web_cmd("EndRecord"),
        Some(ControlCommand::EndRecord { outcome: EpisodeOutcome::Success })
    );
    assert_eq!(parse_web_cmd("ReRecord"), Some(ControlCommand::ReRecord));
    assert_eq!(parse_web_cmd("Stop"), Some(ControlCommand::Stop));
    assert_eq!(parse_web_cmd("Calibrate"), None);
    assert_eq!(parse_web_cmd(" Stop"), None);
}

#[test]
fn ids_fill_missing_with_one() {
    assert_eq!(ids_to_array(&[1, 2, 3, 4, 5, 6]), [1, 2, 3, 4, 5, 6]);
    assert_eq!(ids_to_array(&[7, 8]), [7, 8, 1, 1, 1, 1]);
    assert_eq!(ids_to_array(&[]), [1; 6]);
    assert_eq!(ids_to_array(&[9, 9, 9, 9, 9, 9, 9, 9]), [9; 6]);
}

#[test]
fn demo_device_headers_count_up() {
    let mut d = DemoCartesianDevice::new(42, "demo");
    let h1 = d.next_header(111);
    let h2 = d.next_header(222);
    assert_eq!(h1.seq, 0);
    assert_eq!(h2.seq, 1);
    assert_eq!(h1.session_id, 42);
    assert_eq!(h2.source_id, "demo");
    assert_eq!(h1.stamp_nanos, 111);
    assert_eq!(h2.control_mode, ControlMode::CartesianPose);
    let c = d.capabilities();
    assert_eq!(c.dof, 6);
    assert_eq!(c.supported_modes, vec![ControlMode::CartesianPose]);
    assert_eq!(c.max_rate_hz, 200);
    assert!(!c.force_feedback);
    assert_eq!(c.frames, vec!["base".to_string()]);
    assert_eq!(c.end_effectors, vec!["tcp".to_string()]);
}

#[test]
fn kinematics_and_config_defaults() {
    assert_eq!(IdentityKinematics::new(6).dof, 6);
    let z = ZenohConfig::default();
    assert!(z.peers.is_empty());
    assert!(z.listen.is_none());
}
