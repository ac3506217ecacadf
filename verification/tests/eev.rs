use core::time::Duration;

use hvac_controller_core::eev::Eev;
use hvac_controller_core::hal::{ActuationError, MovementDirection, StepperEvent};
use hvac_controller_core::percent::Percent;
use hvac_controller_core::sim::{CountingDelay, RecordingStepper};

const RANGE: u16 = 200;
const OVERDRIVE: u16 = 15;
const MAX_STEPS: u16 = RANGE + OVERDRIVE;

#[test]
fn it_works() {
    assert_eq!(2 + 2, 4);
}

#[test]
fn eev_initialization() {
    let stepper_motor = RecordingStepper::new();
    let mut eev = Eev::new(stepper_motor, RANGE, OVERDRIVE, CountingDelay::new());

    assert!(eev.current_position().is_none());
    assert!(eev.current_direction().is_none());
    match eev.initialize(Duration::from_millis(2)) {
        Ok(_) => assert!(true),
        Err(_) => assert!(false),
    };

    assert_eq!(eev.current_direction(), Some(MovementDirection::Hold));
    assert_eq!(eev.current_position().map(|p| p.value()), Some(0));
    assert_eq!(eev.stepper_driver().pulse_count(), MAX_STEPS as usize);
    assert_eq!(eev.stepper_driver().release_count(), 1);
    assert!(eev.is_fully_closed());
}

#[test]
fn eev_fully_open() {
    let stepper_motor = RecordingStepper::new();
    let mut eev = Eev::new(stepper_motor, RANGE, OVERDRIVE, CountingDelay::new());

    match eev.initialize(Duration::from_millis(2)) {
        Ok(_) => assert!(true),
        Err(_) => assert!(false),
    };
    assert_eq!(eev.current_direction(), Some(MovementDirection::Hold));
    assert_eq!(eev.current_position().map(|p| p.value()), Some(0));

    match eev.actuate(Percent::new(100), Duration::from_millis(3)) {
        Ok(pct) => assert_eq!(pct.value(), 100),
        Err(_) => assert!(false),
    };
    assert_eq!(eev.current_direction(), Some(MovementDirection::Hold));
    assert_eq!(eev.current_position().map(|p| p.value()), Some(100));
    assert_eq!(eev.stepper_driver().pulse_count(), (MAX_STEPS + RANGE) as usize);
    assert_eq!(eev.stepper_driver().release_count(), 2);
    assert!(eev.is_fully_opened());
}

#[test]
fn eev_actuate() {
    let stepper_motor = RecordingStepper::new();
    let mut eev = Eev::new(stepper_motor, RANGE, OVERDRIVE, CountingDelay::new());

    match eev.initialize(Duration::from_millis(2)) {
        Ok(_) => assert!(true),
        Err(_) => assert!(false),
    };
    assert_eq!(eev.current_position().map(|p| p.value()), Some(0));

    match eev.actuate(Percent::new(100), Duration::from_millis(3)) {
        Ok(pct) => assert_eq!(pct.value(), 100),
        Err(_) => assert!(false),
    };
    assert_eq!(eev.current_position().map(|p| p.value()), Some(100));

    match eev.actuate(Percent::new(50), Duration::from_millis(3)) {
        Ok(pct) => assert_eq!(pct.value(), 50),
        Err(_) => assert!(false),
    };
    assert_eq!(eev.current_position().map(|p| p.value()), Some(50));
    assert_eq!(
        eev.stepper_driver().pulse_count(),
        (MAX_STEPS + RANGE + RANGE / 2) as usize
    );
    assert_eq!(eev.stepper_driver().release_count(), 3);
}

#[test]
fn homing_issues_only_close_pulses() {
    let mut eev = Eev::new(RecordingStepper::new(), RANGE, OVERDRIVE, CountingDelay::new());
    assert!(eev.initialize(Duration::from_millis(2)).is_ok());
    // the log holds the Close pulses and then exactly one release
    let events = eev.stepper_driver().event_log();
    assert_eq!(events.len(), MAX_STEPS as usize + 1);
    for event in &events[..MAX_STEPS as usize] {
        assert_eq!(*event, StepperEvent::Pulse(MovementDirection::Close));
    }
    assert_eq!(events[MAX_STEPS as usize], StepperEvent::Released);
}

#[test]
fn actuate_on_target_is_a_no_op() {
    let mut eev = Eev::new(RecordingStepper::new(), RANGE, OVERDRIVE, CountingDelay::new());
    assert!(eev.initialize(Duration::from_millis(1)).is_ok());
    match eev.actuate(Percent::new(50), Duration::from_millis(1)) {
        Ok(pct) => assert_eq!(pct.value(), 50),
        Err(_) => assert!(false),
    };
    let issued: usize = eev.stepper_driver().pulse_count();
    let released: usize = eev.stepper_driver().release_count();

    match eev.actuate(Percent::new(50), Duration::from_millis(1)) {
        Ok(pct) => assert_eq!(pct.value(), 50),
        Err(_) => assert!(false),
    };
    assert_eq!(eev.stepper_driver().pulse_count(), issued);
    assert_eq!(eev.stepper_driver().release_count(), released);
    assert_eq!(eev.current_direction(), Some(MovementDirection::Hold));
    assert_eq!(eev.current_position().map(|p| p.value()), Some(50));
}

#[test]
fn pulse_fault_keeps_partial_motion() {
    // the 51st pulse call (index 50) reports a timeout during homing
    let stepper_motor = RecordingStepper::with_pulse_fault(50, ActuationError::TimedOut);
    let mut eev = Eev::new(stepper_motor, RANGE, OVERDRIVE, CountingDelay::new());

    match eev.initialize(Duration::from_millis(1)) {
        Ok(_) => assert!(false),
        Err(fault) => assert_eq!(fault, ActuationError::TimedOut),
    };
    // 50 pulses succeeded: position fell from 215 to 165
    assert_eq!(eev.stepper_driver().pulse_count(), 50);
    assert_eq!(eev.current_direction(), Some(MovementDirection::Close));
    assert_eq!(eev.current_position().map(|p| p.value()), Some(82));
    assert!(!eev.is_fully_closed());
    assert_eq!(eev.stepper_driver().release_count(), 0);
    // the log ends with the fault that was returned
    let events = eev.stepper_driver().event_log();
    assert_eq!(events.len(), 51);
    assert_eq!(events[50], StepperEvent::PulseFault(ActuationError::TimedOut));
}

#[test]
fn pulse_fault_mid_opening() {
    // homing takes 215 pulses; the 31st pulse of the following actuation
    // (index 215 + 30) reports a generic fault
    let stepper_motor = RecordingStepper::with_pulse_fault(245, ActuationError::Generic);
    let mut eev = Eev::new(stepper_motor, RANGE, OVERDRIVE, CountingDelay::new());
    assert!(eev.initialize(Duration::from_millis(1)).is_ok());

    match eev.actuate(Percent::new(50), Duration::from_millis(1)) {
        Ok(_) => assert!(false),
        Err(fault) => assert_eq!(fault, ActuationError::Generic),
    };
    // 30 Open pulses succeeded before the fault
    assert_eq!(eev.stepper_driver().pulse_count(), 245);
    assert_eq!(eev.current_direction(), Some(MovementDirection::Open));
    assert_eq!(eev.current_position().map(|p| p.value()), Some(15));
}

#[test]
fn first_pulse_fault_exceeded_range() {
    let stepper_motor = RecordingStepper::with_pulse_fault(0, ActuationError::ExceededRange);
    let mut eev = Eev::new(stepper_motor, RANGE, OVERDRIVE, CountingDelay::new());
    match eev.initialize(Duration::from_millis(1)) {
        Ok(_) => assert!(false),
        Err(fault) => assert_eq!(fault, ActuationError::ExceededRange),
    };
    assert_eq!(eev.stepper_driver().pulse_count(), 0);
}

#[test]
fn release_fault_is_propagated() {
    let stepper_motor = RecordingStepper::with_release_fault(ActuationError::Generic);
    let mut eev = Eev::new(stepper_motor, RANGE, OVERDRIVE, CountingDelay::new());

    match eev.initialize(Duration::from_millis(1)) {
        Ok(_) => assert!(false),
        Err(fault) => assert_eq!(fault, ActuationError::Generic),
    };
    // the motion itself completed before the release fault
    assert_eq!(eev.stepper_driver().pulse_count(), MAX_STEPS as usize);
    assert!(eev.is_fully_closed());
    assert_eq!(eev.current_direction(), Some(MovementDirection::Close));
    assert_eq!(eev.stepper_driver().release_count(), 0);
    let events = eev.stepper_driver().event_log();
    assert_eq!(
        events[events.len() - 1],
        StepperEvent::ReleaseFault(ActuationError::Generic)
    );
}

#[test]
fn every_pulse_is_paced_except_at_a_stop() {
    let mut eev = Eev::new(RecordingStepper::new(), RANGE, OVERDRIVE, CountingDelay::new());
    assert!(eev.initialize(Duration::from_millis(2)).is_ok());
    // the homing descent ends at the mechanical stop, which skips the
    // final pacing delay: 215 pulses, 214 delays of 2 ms each
    assert_eq!(eev.stepper_driver().pulse_count(), MAX_STEPS as usize);
    assert_eq!(eev.delay_generator().call_count(), (MAX_STEPS - 1) as usize);
    assert_eq!(eev.delay_generator().total_requested_ms(), 2 * (MAX_STEPS - 1) as u64);

    // seeking an interior target paces every pulse, the last included
    match eev.actuate(Percent::new(50), Duration::from_millis(3)) {
        Ok(pct) => assert_eq!(pct.value(), 50),
        Err(_) => assert!(false),
    };
    assert_eq!(
        eev.delay_generator().call_count(),
        (MAX_STEPS - 1) as usize + (RANGE / 2) as usize
    );
}

#[test]
fn small_range_with_no_overdrive() {
    let mut eev = Eev::new(RecordingStepper::new(), 1, 0, CountingDelay::new());
    match eev.initialize(Duration::from_millis(1)) {
        Ok(pct) => assert_eq!(pct.value(), 0),
        Err(_) => assert!(false),
    };
    assert_eq!(eev.stepper_driver().pulse_count(), 1);
    assert!(eev.is_fully_closed());

    match eev.actuate(Percent::new(100), Duration::from_millis(1)) {
        Ok(pct) => assert_eq!(pct.value(), 100),
        Err(_) => assert!(false),
    };
    assert_eq!(eev.stepper_driver().pulse_count(), 2);
    assert!(eev.is_fully_opened());

    // 49% of a one-pulse range truncates to pulse 0
    match eev.actuate(Percent::new(49), Duration::from_millis(1)) {
        Ok(pct) => assert_eq!(pct.value(), 0),
        Err(_) => assert!(false),
    };
    assert!(eev.is_fully_closed());
}
