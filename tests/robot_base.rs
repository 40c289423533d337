use wpilib::guard::InitGuard;
use wpilib::hal::{check_flag, check_status, HalError};
use wpilib::robot_base::{RobotBase, RobotBaseInitError, HAL_INIT_MODE, HAL_INIT_TIMEOUT};
use wpilib::time::FpgaDuration;

#[test]
fn first_construction_succeeds() {
    let mut guard = InitGuard::new();
    assert!(!guard.claimed());
    let r = RobotBase::new(&mut guard, || 1);
    assert!(r.is_ok());
    assert!(guard.claimed());
}

#[test]
fn exactly_one_of_many_attempts_succeeds() {
    let mut guard = InitGuard::new();
    let mut successes = 0;
    let mut already = 0;
    for _ in 0..8 {
        match RobotBase::new(&mut guard, || 1) {
            Ok(_) => successes += 1,
            Err(RobotBaseInitError::AlreadyInit) => already += 1,
            Err(RobotBaseInitError::HalInitFailed) => panic!("HAL init reported success"),
        }
    }
    assert_eq!(successes, 1);
    assert_eq!(already, 7);
}

#[test]
fn second_construction_fails_after_handle_dropped() {
    let mut guard = InitGuard::new();
    {
        let first = RobotBase::new(&mut guard, || 1);
        assert!(first.is_ok());
    }
    let second = RobotBase::new(&mut guard, || 1);
    assert_eq!(second.err(), Some(RobotBaseInitError::AlreadyInit));
}

#[test]
fn second_construction_fails_while_handle_live() {
    let mut guard = InitGuard::new();
    let first = RobotBase::new(&mut guard, || 1);
    let second = RobotBase::new(&mut guard, || 1);
    assert!(first.is_ok());
    assert_eq!(second.err(), Some(RobotBaseInitError::AlreadyInit));
}

#[test]
fn hal_init_failure_keeps_guard_claimed() {
    let mut guard = InitGuard::new();
    let first = RobotBase::new(&mut guard, || 0);
    assert_eq!(first.err(), Some(RobotBaseInitError::HalInitFailed));
    assert!(guard.claimed());
    let second = RobotBase::new(&mut guard, || 0);
    assert_eq!(second.err(), Some(RobotBaseInitError::AlreadyInit));
}

#[test]
fn lost_claim_does_not_touch_hardware() {
    let mut guard = InitGuard::new();
    assert!(guard.try_claim());
    let mut calls = 0;
    let r = RobotBase::new(&mut guard, || {
        calls += 1;
        1
    });
    assert_eq!(r.err(), Some(RobotBaseInitError::AlreadyInit));
    assert_eq!(calls, 0);
}

#[test]
fn hal_initialize_called_once_on_claim() {
    let mut guard = InitGuard::new();
    let mut calls = 0;
    let r = RobotBase::new(&mut guard, || {
        calls += 1;
        7
    });
    assert!(r.is_ok());
    assert_eq!(calls, 1);
}

#[test]
fn try_claim_wins_once() {
    let mut guard = InitGuard::new();
    assert!(guard.try_claim());
    assert!(!guard.try_claim());
    assert!(!guard.try_claim());
    assert!(guard.claimed());
}

#[test]
fn init_parameters() {
    assert_eq!(HAL_INIT_TIMEOUT, 500);
    assert_eq!(HAL_INIT_MODE, 0);
}

#[test]
fn duration_of_one_and_a_half_seconds() {
    let d = RobotBase::fpga_time_duration(1_500_000, 0).unwrap();
    assert_eq!(d.as_secs(), 1);
    assert_eq!(d.subsec_nanos(), 500_000_000);
}

#[test]
fn duration_of_zero_micros() {
    let d = RobotBase::fpga_time_duration(0, 0).unwrap();
    assert_eq!(d.as_secs(), 0);
    assert_eq!(d.subsec_nanos(), 0);
}

#[test]
fn duration_of_largest_reading() {
    let d = FpgaDuration::from_micros(u64::MAX);
    assert_eq!(d.as_secs(), u64::MAX / 1_000_000);
    assert_eq!(d.subsec_nanos(), 551_615_000);
}

#[test]
fn duration_keeps_status_error() {
    let r = RobotBase::fpga_time_duration(1_500_000, -1029);
    assert_eq!(r, Err(HalError(-1029)));
}

#[test]
fn readings_pass_through_on_zero_status() {
    assert_eq!(RobotBase::fpga_version(2018, 0), Ok(2018));
    assert_eq!(RobotBase::fpga_revision(0x0120_3004, 0), Ok(0x0120_3004));
    assert_eq!(RobotBase::fpga_time(123_456, 0), Ok(123_456));
}

#[test]
fn readings_fail_on_nonzero_status() {
    assert_eq!(RobotBase::fpga_version(2018, 5), Err(HalError(5)));
    assert_eq!(RobotBase::fpga_revision(1, -44), Err(HalError(-44)));
    assert_eq!(RobotBase::fpga_time(9, 1), Err(HalError(1)));
}

#[test]
fn flags_are_nonzero_readings() {
    assert_eq!(RobotBase::user_button(1, 0), Ok(true));
    assert_eq!(RobotBase::user_button(0, 0), Ok(false));
    assert_eq!(RobotBase::is_browned_out(-3, 0), Ok(true));
    assert_eq!(RobotBase::is_browned_out(0, 0), Ok(false));
    assert_eq!(RobotBase::is_system_active(255, 0), Ok(true));
    assert_eq!(RobotBase::is_system_active(0, 0), Ok(false));
}

#[test]
fn flags_fail_on_nonzero_status() {
    assert_eq!(RobotBase::user_button(1, 3), Err(HalError(3)));
    assert_eq!(RobotBase::is_browned_out(1, -7), Err(HalError(-7)));
    assert_eq!(RobotBase::is_system_active(0, 2), Err(HalError(2)));
}

#[test]
fn status_helpers() {
    assert_eq!(check_status(42u8, 0), Ok(42u8));
    assert_eq!(check_status(42u8, 9), Err(HalError(9)));
    assert_eq!(check_flag(2, 0), Ok(true));
    assert_eq!(check_flag(0, -1), Err(HalError(-1)));
}
