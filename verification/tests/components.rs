use wpilib_ds::driverstation::{alliance_from_id, station_from_id, AllianceId, MappingError};
use wpilib_ds::frame::{ControlWord, InputFrame, JoystickPort, RobotState};
use wpilib_ds::hal::{hal_result, is_browned_out, is_system_active, HalError};
use wpilib_ds::report::DiagnosticReport;
use wpilib_ds::throttler::Throttler;

fn neutral_word() -> ControlWord {
    ControlWord {
        enabled: false,
        autonomous: false,
        test: false,
        e_stop: false,
        fms_attached: false,
        ds_attached: false,
    }
}

fn full_port() -> JoystickPort {
    JoystickPort {
        axes: vec![0; 12],
        axis_count: 12,
        povs: vec![-1; 12],
        pov_count: 12,
        buttons: 0,
        button_count: 32,
    }
}

#[test]
fn throttler_interval_five_gates_by_deadline() {
    let mut t = Throttler::new(0, 5);
    assert_eq!(t.update(0), false);
    assert_eq!(t.update(3), false);
    assert_eq!(t.update(6), true);
    assert_eq!(t.update(11), true);
}

#[test]
fn throttler_deadline_advances_only_on_fire() {
    let mut t = Throttler::new(10, 7);
    // deadline 17: calls at or below it do not fire and do not mutate
    assert_eq!(t.update(17), false);
    assert_eq!(t.update(18), true);
    // deadline moved to 24
    assert_eq!(t.update(24), false);
    assert_eq!(t.update(25), true);
}

#[test]
fn throttler_zero_interval_always_permits() {
    let mut t = Throttler::new(0, 0);
    assert_eq!(t.update(1), true);
    assert_eq!(t.update(1), true);
    assert_eq!(t.update(2), true);
}

#[test]
fn throttler_saturates_at_the_top() {
    let mut t = Throttler::new(u64::MAX - 1, 5);
    // deadline saturates at u64::MAX, which no time strictly exceeds
    assert_eq!(t.update(u64::MAX), false);
}

#[test]
fn hal_result_splits_on_status() {
    assert_eq!(hal_result(0, 42i32), Ok(42));
    assert_eq!(hal_result(-9, 42i32), Err(HalError(-9)));
}

#[test]
fn hal_error_from_code() {
    assert_eq!(HalError::from(3), HalError(3));
}

#[test]
fn brownout_and_system_active_decode() {
    assert_eq!(is_browned_out(0, 1), Ok(true));
    assert_eq!(is_browned_out(0, 0), Ok(false));
    assert_eq!(is_browned_out(7, 1), Err(HalError(7)));
    assert_eq!(is_system_active(0, 2), Ok(true));
    assert_eq!(is_system_active(0, 0), Ok(false));
    assert_eq!(is_system_active(-2, 0), Err(HalError(-2)));
}

#[test]
fn station_mapping_red1_blue1() {
    assert_eq!(alliance_from_id(0), Ok(AllianceId::Red));
    assert_eq!(station_from_id(0), Ok(1));
    assert_eq!(alliance_from_id(3), Ok(AllianceId::Blue));
    assert_eq!(station_from_id(3), Ok(1));
}

#[test]
fn station_mapping_all_known_ids() {
    assert_eq!(alliance_from_id(1), Ok(AllianceId::Red));
    assert_eq!(station_from_id(1), Ok(2));
    assert_eq!(alliance_from_id(2), Ok(AllianceId::Red));
    assert_eq!(station_from_id(2), Ok(3));
    assert_eq!(alliance_from_id(4), Ok(AllianceId::Blue));
    assert_eq!(station_from_id(4), Ok(2));
    assert_eq!(alliance_from_id(5), Ok(AllianceId::Blue));
    assert_eq!(station_from_id(5), Ok(3));
}

#[test]
fn station_mapping_rejects_unknown_ids() {
    assert_eq!(alliance_from_id(-1), Err(MappingError));
    assert_eq!(station_from_id(-1), Err(MappingError));
    assert_eq!(alliance_from_id(6), Err(MappingError));
    assert_eq!(station_from_id(6), Err(MappingError));
    assert_eq!(alliance_from_id(i32::MAX), Err(MappingError));
}

#[test]
fn robot_state_precedence() {
    let mut cw = neutral_word();
    cw.enabled = true;
    cw.autonomous = true;
    assert_eq!(RobotState::of_control_word(&cw), RobotState::Autonomous);
    cw.autonomous = false;
    assert_eq!(RobotState::of_control_word(&cw), RobotState::Teleop);
    cw.enabled = false;
    cw.e_stop = true;
    assert_eq!(RobotState::of_control_word(&cw), RobotState::EStop);
    cw.e_stop = false;
    assert_eq!(RobotState::of_control_word(&cw), RobotState::Disabled);
}

#[test]
fn robot_state_enabled_wins_over_estop() {
    let mut cw = neutral_word();
    cw.enabled = true;
    cw.e_stop = true;
    assert_eq!(RobotState::of_control_word(&cw), RobotState::Teleop);
}

#[test]
fn frame_new_accepts_well_formed_sample() {
    let ports: Vec<JoystickPort> = (0..6).map(|_| full_port()).collect();
    let f = InputFrame::new(ports, neutral_word(), 0);
    assert!(f.is_some());
}

#[test]
fn frame_new_rejects_wrong_port_count() {
    let ports: Vec<JoystickPort> = (0..5).map(|_| full_port()).collect();
    assert!(InputFrame::new(ports, neutral_word(), 0).is_none());
}

#[test]
fn frame_new_rejects_count_beyond_protocol() {
    let mut ports: Vec<JoystickPort> = (0..6).map(|_| full_port()).collect();
    ports[2].axis_count = 13;
    assert!(InputFrame::new(ports, neutral_word(), 0).is_none());
}

#[test]
fn initial_frame_is_unassigned_and_unplugged() {
    let f = InputFrame::initial();
    assert_eq!(f.station_id, -1);
    assert_eq!(f.ports.len(), 6);
    for p in &f.ports {
        assert_eq!(p.axis_count, 0);
        assert_eq!(p.pov_count, 0);
        assert_eq!(p.button_count, 0);
    }
}

#[test]
fn diagnostic_report_carries_its_parts() {
    let rep = DiagnosticReport::new(true, 44, "boom", "here", "trace");
    assert_eq!(rep.is_error, true);
    assert_eq!(rep.code, 44);
    assert_eq!(rep.message, "boom");
    assert_eq!(rep.location, "here");
    assert_eq!(rep.stack_trace, "trace");
}
