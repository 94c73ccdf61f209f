use dorarobot::daemon::state::{accepts_joint_targets, observation_pass, status_fields, ArmState, DataflowAction, Fsm};
use dorarobot::messages::control::ControlCommand;
use dorarobot::messages::episode::EpisodeOutcome;

#[test]
fn initial_state_is_idle() {
    let fsm = Fsm::new();
    assert_eq!(fsm.current(), ArmState::Idle);
}

#[test]
fn torque_on_from_idle() {
    let mut fsm = Fsm::new();
    let (state, action) = fsm.apply(&ControlCommand::TorqueOn);
    assert_eq!(state, ArmState::Ready);
    assert_eq!(action, DataflowAction::Launch);
}

#[test]
fn torque_on_from_ready_is_noop() {
    let mut fsm = Fsm::new();
    fsm.apply(&ControlCommand::TorqueOn); // Idle -> Ready
    let (state, action) = fsm.apply(&ControlCommand::TorqueOn);
    assert_eq!(state, ArmState::Ready);
    assert_eq!(action, DataflowAction::Nothing);
}

#[test]
fn torque_on_from_recording_is_noop() {
    let mut fsm = Fsm::new();
    fsm.apply(&ControlCommand::TorqueOn); // Idle -> Ready
    fsm.apply(&ControlCommand::StartRecord { task: "test".into() }); // Ready -> Recording
    let (state, action) = fsm.apply(&ControlCommand::TorqueOn);
    assert_eq!(state, ArmState::Recording);
    assert_eq!(action, DataflowAction::Nothing);
}

#[test]
fn torque_off_from_idle() {
    let mut fsm = Fsm::new();
    let (state, action) = fsm.apply(&ControlCommand::TorqueOff);
    assert_eq!(state, ArmState::Idle);
    assert_eq!(action, DataflowAction::Stop);
}

#[test]
fn torque_off_from_ready() {
    let mut fsm = Fsm::new();
    fsm.apply(&ControlCommand::TorqueOn);
    let (state, action) = fsm.apply(&ControlCommand::TorqueOff);
    assert_eq!(state, ArmState::Idle);
    assert_eq!(action, DataflowAction::Stop);
}

#[test]
fn torque_off_from_recording() {
    let mut fsm = Fsm::new();
    fsm.apply(&ControlCommand::TorqueOn);
    fsm.apply(&ControlCommand::StartRecord { task: "test".into() });
    let (state, action) = fsm.apply(&ControlCommand::TorqueOff);
    assert_eq!(state, ArmState::Idle);
    assert_eq!(action, DataflowAction::Stop);
}

#[test]
fn start_record_from_ready() {
    let mut fsm = Fsm::new();
    fsm.apply(&ControlCommand::TorqueOn);
    let (state, action) = fsm.apply(&ControlCommand::StartRecord { task: "pick cube".into() });
    assert_eq!(state, ArmState::Recording);
    assert_eq!(action, DataflowAction::Nothing);
}

#[test]
fn start_record_from_idle_is_noop() {
    let mut fsm = Fsm::new();
    let (state, action) = fsm.apply(&ControlCommand::StartRecord { task: "pick cube".into() });
    assert_eq!(state, ArmState::Idle);
    assert_eq!(action, DataflowAction::Nothing);
}

#[test]
fn end_record_from_recording() {
    let mut fsm = Fsm::new();
    fsm.apply(&ControlCommand::TorqueOn);
    fsm.apply(&ControlCommand::StartRecord { task: "test".into() });
    let (state, action) =
        fsm.apply(&ControlCommand::EndRecord { outcome: EpisodeOutcome::Success });
    assert_eq!(state, ArmState::Ready);
    assert_eq!(action, DataflowAction::Nothing);
}

#[test]
fn end_record_from_ready_is_noop() {
    let mut fsm = Fsm::new();
    fsm.apply(&ControlCommand::TorqueOn);
    let (state, action) =
        fsm.apply(&ControlCommand::EndRecord { outcome: EpisodeOutcome::Success });
    assert_eq!(state, ArmState::Ready);
    assert_eq!(action, DataflowAction::Nothing);
}

#[test]
fn rerecord_from_recording() {
    let mut fsm = Fsm::new();
    fsm.apply(&ControlCommand::TorqueOn);
    fsm.apply(&ControlCommand::StartRecord { task: "test".into() });
    let (state, action) = fsm.apply(&ControlCommand::ReRecord);
    assert_eq!(state, ArmState::Recording);
    assert_eq!(action, DataflowAction::Nothing);
}

#[test]
fn rerecord_from_idle_is_noop() {
    let mut fsm = Fsm::new();
    let (state, action) = fsm.apply(&ControlCommand::ReRecord);
    assert_eq!(state, ArmState::Idle);
    assert_eq!(action, DataflowAction::Nothing);
}

#[test]
fn stop_from_recording() {
    let mut fsm = Fsm::new();
    fsm.apply(&ControlCommand::TorqueOn);
    fsm.apply(&ControlCommand::StartRecord { task: "test".into() });
    let (state, action) = fsm.apply(&ControlCommand::Stop);
    assert_eq!(state, ArmState::Ready);
    assert_eq!(action, DataflowAction::Nothing);
}

#[test]
fn stop_from_idle_is_noop() {
    let mut fsm = Fsm::new();
    let (state, action) = fsm.apply(&ControlCommand::Stop);
    assert_eq!(state, ArmState::Idle);
    assert_eq!(action, DataflowAction::Nothing);
}

#[test]
fn full_cycle_idle_to_recording_and_back() {
    let mut fsm = Fsm::new();
    assert_eq!(fsm.current(), ArmState::Idle);

    let (s, a) = fsm.apply(&ControlCommand::TorqueOn);
    assert_eq!(s, ArmState::Ready);
    assert_eq!(a, DataflowAction::Launch);

    let (s, a) = fsm.apply(&ControlCommand::StartRecord { task: "task".into() });
    assert_eq!(s, ArmState::Recording);
    assert_eq!(a, DataflowAction::Nothing);

    let (s, a) = fsm.apply(&ControlCommand::EndRecord { outcome: EpisodeOutcome::Success });
    assert_eq!(s, ArmState::Ready);
    assert_eq!(a, DataflowAction::Nothing);

    let (s, a) = fsm.apply(&ControlCommand::TorqueOff);
    assert_eq!(s, ArmState::Idle);
    assert_eq!(a, DataflowAction::Stop);
}

#[test]
fn cycle_with_rerecord() {
    let mut fsm = Fsm::new();
    fsm.apply(&ControlCommand::TorqueOn);
    fsm.apply(&ControlCommand::StartRecord { task: "t".into() });
    assert_eq!(fsm.current(), ArmState::Recording);

    fsm.apply(&ControlCommand::ReRecord);
    assert_eq!(fsm.current(), ArmState::Recording); // stays

    fsm.apply(&ControlCommand::Stop);
    assert_eq!(fsm.current(), ArmState::Ready);
}

#[test]
fn fsm_default_is_idle() {
    let fsm = Fsm::default();
    assert_eq!(fsm.current(), ArmState::Idle);
}

#[test]
fn fsm_dataflow_runs_exactly_while_torque_on() {
    // Drive every command from every reachable state and track the dataflow as the
    // daemon does; it must run exactly when the state is not Idle.
    let cmds = vec![
        ControlCommand::TorqueOn,
        ControlCommand::StartRecord { task: "a".into() },
        ControlCommand::ReRecord,
        ControlCommand::EndRecord { outcome: EpisodeOutcome::Fail },
        ControlCommand::StartRecord { task: "b".into() },
        ControlCommand::Stop,
        ControlCommand::TorqueOn,
        ControlCommand::TorqueOff,
        ControlCommand::TorqueOff,
        ControlCommand::Stop,
        ControlCommand::TorqueOn,
    ];
    let mut fsm = Fsm::new();
    let mut running = false;
    for c in &cmds {
        let (s, a) = fsm.apply(c);
        match a {
            DataflowAction::Launch => running = true,
            DataflowAction::Stop => running = false,
            DataflowAction::Nothing => {}
        }
        assert_eq!(running, s != ArmState::Idle);
    }
}

#[test]
fn status_fields_per_state() {
    assert_eq!(status_fields(ArmState::Idle), ("IDLE", false, false));
    assert_eq!(status_fields(ArmState::Ready), ("READY", true, false));
    assert_eq!(status_fields(ArmState::Recording), ("RECORDING", true, true));
}

#[test]
fn joint_targets_accepted_only_with_torque() {
    assert!(!accepts_joint_targets(ArmState::Idle));
    assert!(accepts_joint_targets(ArmState::Ready));
    assert!(accepts_joint_targets(ArmState::Recording));
}

#[test]
fn observation_read_every_third_pass() {
    let mut c: u8 = 0;
    let mut reads = Vec::new();
    for _ in 0..6 {
        let (n, due) = observation_pass(c);
        c = n;
        reads.push(due);
    }
    assert_eq!(reads, vec![false, false, true, false, false, true]);
    assert_eq!(c, 0);
}
