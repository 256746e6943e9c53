use fan_control::controller::{
    decide, effective_reading, plan_pause, Action, Controller, Event, Level, DWELL_SECS,
    ERROR_SECS, NORMAL_SECS,
};

/// Drive a fresh controller through export and direction setup.
fn ready_controller(threshold_milli: i64) -> Controller {
    let mut c = Controller::new(threshold_milli);
    assert_eq!(c.next_action(), Action::Export);
    c.handle(Event::ExportOk);
    assert_eq!(c.next_action(), Action::SetDirection);
    c.handle(Event::DirectionOk);
    assert_eq!(c.next_action(), Action::ReadSensor);
    c
}

#[test]
fn decision_is_strictly_above() {
    assert_eq!(decide(43001, 43000), Level::High);
    assert_eq!(decide(43000, 43000), Level::Low);
    assert_eq!(decide(42999, 43000), Level::Low);
    assert_eq!(decide(-1000, -2000), Level::High);
}

#[test]
fn failed_reading_substitutes_threshold() {
    assert_eq!(effective_reading(None, 43000), 43000);
    assert_eq!(effective_reading(Some(50000), 43000), 50000);
    assert_eq!(decide(effective_reading(None, 43000), 43000), Level::Low);
    assert_eq!(decide(effective_reading(None, -5000), -5000), Level::Low);
}

#[test]
fn pause_plan_values() {
    assert_eq!(plan_pause(Level::High, true), (DWELL_SECS, NORMAL_SECS));
    assert_eq!(plan_pause(Level::High, true), (15, 5));
    assert_eq!(plan_pause(Level::Low, true), (0, NORMAL_SECS));
    assert_eq!(plan_pause(Level::Low, true), (0, 5));
    assert_eq!(plan_pause(Level::High, false), (0, ERROR_SECS));
    assert_eq!(plan_pause(Level::High, false), (0, 2));
    assert_eq!(plan_pause(Level::Low, false), (0, 2));
    assert!(DWELL_SECS + NORMAL_SECS >= 20);
}

#[test]
fn scenario_hot_reading_drive_succeeds() {
    let mut c = ready_controller(43000);
    c.handle(Event::Reading(Some(50000)));
    assert_eq!(c.next_action(), Action::Drive(Level::High));
    c.handle(Event::DriveDone(true));
    assert_eq!(c.next_action(), Action::Pause { dwell_secs: 15, rest_secs: 5 });
    c.handle(Event::Paused);
    assert_eq!(c.next_action(), Action::ReadSensor);
}

#[test]
fn scenario_reading_equal_to_threshold() {
    let mut c = ready_controller(43000);
    c.handle(Event::Reading(Some(43000)));
    assert_eq!(c.next_action(), Action::Drive(Level::Low));
    c.handle(Event::DriveDone(true));
    assert_eq!(c.next_action(), Action::Pause { dwell_secs: 0, rest_secs: 5 });
}

#[test]
fn scenario_sensor_failure() {
    let mut c = ready_controller(43000);
    c.handle(Event::Reading(None));
    assert_eq!(c.next_action(), Action::Drive(Level::Low));
    c.handle(Event::DriveDone(true));
    assert_eq!(c.next_action(), Action::Pause { dwell_secs: 0, rest_secs: 5 });
}

#[test]
fn scenario_hot_reading_drive_fails() {
    let mut c = ready_controller(43000);
    c.handle(Event::Reading(Some(50000)));
    assert_eq!(c.next_action(), Action::Drive(Level::High));
    c.handle(Event::DriveDone(false));
    assert_eq!(c.next_action(), Action::Pause { dwell_secs: 0, rest_secs: 2 });
}

#[test]
fn scenario_off_drive_fails() {
    let mut c = ready_controller(43000);
    c.handle(Event::Reading(Some(40000)));
    assert_eq!(c.next_action(), Action::Drive(Level::Low));
    c.handle(Event::DriveDone(false));
    assert_eq!(c.next_action(), Action::Pause { dwell_secs: 0, rest_secs: 2 });
}

#[test]
fn scenario_export_failure_is_fatal() {
    let mut c = Controller::new(43000);
    assert_eq!(c.next_action(), Action::Export);
    c.handle(Event::ExportFailed);
    assert_eq!(c.next_action(), Action::Fail);
    c.handle(Event::Reading(Some(50000)));
    assert_eq!(c.next_action(), Action::Fail);
    c.handle(Event::Paused);
    assert_eq!(c.next_action(), Action::Fail);
}

#[test]
fn direction_set_once_before_first_drive() {
    let mut c = Controller::new(43000);
    let readings = [Some(50000), Some(41000), None, Some(60000)];
    let mut direction_requests = 0;
    let mut drives = 0;
    let mut sample = 0;
    for _ in 0..40 {
        match c.next_action() {
            Action::Export => c.handle(Event::ExportOk),
            Action::SetDirection => {
                direction_requests += 1;
                assert_eq!(drives, 0);
                c.handle(Event::DirectionOk);
            }
            Action::ReadSensor => {
                let r = readings[sample % readings.len()];
                sample += 1;
                c.handle(Event::Reading(r));
            }
            Action::Drive(_) => {
                drives += 1;
                c.handle(Event::DriveDone(true));
            }
            Action::Pause { .. } => c.handle(Event::Paused),
            Action::Fail => panic!("the controller failed unexpectedly"),
        }
    }
    assert_eq!(direction_requests, 1);
    assert!(drives > 1);
}

#[test]
fn protocol_breach_fails_the_run() {
    let mut c = ready_controller(43000);
    c.handle(Event::Paused);
    assert_eq!(c.next_action(), Action::Fail);
}
