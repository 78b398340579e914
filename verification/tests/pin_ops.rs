use linux_embedded_hal::Direction;
use linux_embedded_hal::Level;
use linux_embedded_hal::LineConfig;
use linux_embedded_hal::LinePin;
use linux_embedded_hal::PinError;
use linux_embedded_hal::RawValue;
use linux_embedded_hal::ReconfigOutcome;

fn apply_plan_counting(
    pin: &mut LinePin,
    plan: Option<LineConfig>,
    reconfigure_calls: &mut usize,
) -> Result<(), PinError> {
    match plan {
        None => Ok(()),
        Some(config) => {
            *reconfigure_calls += 1;
            pin.apply_reconfigure(config, ReconfigOutcome::Applied)
        }
    }
}

#[test]
fn acquire_grants_configured_pin() {
    let pin = LinePin::acquire_result(4, LineConfig::input(false), true).expect("acquire failed");
    assert_eq!(pin.offset, 4);
    assert_eq!(pin.config.direction, Direction::Input);
    assert!(pin.held);
}

#[test]
fn acquire_denied_fails() {
    let r = LinePin::acquire_result(4, LineConfig::input(false), false);
    assert_eq!(r, Err(PinError::AcquisitionFailed));
}

#[test]
fn acquire_invalid_config_fails() {
    // An output configuration without a commanded value is invalid, so
    // the acquisition fails even if the kernel were to grant it.
    let config = LineConfig {
        direction: Direction::Output,
        active_low: false,
        drive: None,
        edge_detection: None,
        output_value: None,
    };
    let r = LinePin::acquire_result(4, config, true);
    assert_eq!(r, Err(PinError::AcquisitionFailed));
}

#[test]
fn same_direction_conversion_is_noop() {
    // Converting a pin already in the requested direction must succeed
    // without any kernel reconfigure call.
    let mut reconfigure_calls: usize = 0;

    let mut out_pin = LinePin::acquire_result(17, LineConfig::output(false, Level::Low), true)
        .expect("acquire failed");
    let plan = out_pin.into_output_plan(Level::High).expect("plan failed");
    apply_plan_counting(&mut out_pin, plan, &mut reconfigure_calls).expect("conversion failed");
    assert_eq!(reconfigure_calls, 0);
    assert_eq!(out_pin.config.direction, Direction::Output);

    let mut in_pin = LinePin::acquire_result(4, LineConfig::input(false), true)
        .expect("acquire failed");
    let plan = in_pin.into_input_plan().expect("plan failed");
    apply_plan_counting(&mut in_pin, plan, &mut reconfigure_calls).expect("conversion failed");
    assert_eq!(reconfigure_calls, 0);
    assert_eq!(in_pin.config.direction, Direction::Input);
}

#[test]
fn cross_direction_conversion_reconfigures_once() {
    let mut reconfigure_calls: usize = 0;
    let mut pin = LinePin::acquire_result(4, LineConfig::input(true), true)
        .expect("acquire failed");
    let plan = pin.into_output_plan(Level::High).expect("plan failed");
    apply_plan_counting(&mut pin, plan, &mut reconfigure_calls).expect("conversion failed");
    assert_eq!(reconfigure_calls, 1);
    assert_eq!(pin.config.direction, Direction::Output);
    // Polarity is preserved across the conversion.
    assert!(pin.config.active_low);
    assert_eq!(pin.config.output_value, Some(Level::High));
}

#[test]
fn failed_output_conversion_leaves_input_readable() {
    // A refused in-place reconfiguration during into_output(Low) leaves
    // the pin an input, and a subsequent level read still succeeds.
    let mut pin = LinePin::acquire_result(4, LineConfig::input(false), true)
        .expect("acquire failed");
    let plan = pin.into_output_plan(Level::Low).expect("plan failed").expect("expected a plan");
    let r = pin.apply_reconfigure(plan, ReconfigOutcome::RejectedInPlace);
    assert_eq!(r, Err(PinError::ReconfigurationFailed));
    assert_eq!(pin.config.direction, Direction::Input);
    assert_eq!(pin.read_level(RawValue::Active), Ok(Level::High));
}

#[test]
fn lost_line_on_reopen_is_terminal() {
    let mut pin = LinePin::acquire_result(4, LineConfig::input(false), true)
        .expect("acquire failed");
    let plan = pin.into_output_plan(Level::Low).expect("plan failed").expect("expected a plan");
    let r = pin.apply_reconfigure(plan, ReconfigOutcome::LostOnReopen);
    assert_eq!(r, Err(PinError::ReconfigurationFailed));
    assert!(!pin.held);
    assert_eq!(pin.read_level(RawValue::Active), Err(PinError::IoFailed));
    assert_eq!(pin.write_plan(Level::High), Err(PinError::IoFailed));
}

#[test]
fn output_lifecycle_scenario() {
    // Line offset 17, acquired as output with initial level Low:
    // write_level(High), into_input, into_output(Low); the final cached
    // output state is Low and no step errs.
    let mut pin = LinePin::acquire_result(17, LineConfig::output(false, Level::Low), true)
        .expect("acquire failed");
    assert_eq!(pin.cached_output_level(), Ok(Level::Low));

    let raw = pin.write_plan(Level::High).expect("plan failed");
    assert_eq!(raw, RawValue::Active);
    pin.write_result(Level::High, true).expect("write failed");
    assert_eq!(pin.cached_output_level(), Ok(Level::High));

    let plan = pin.into_input_plan().expect("plan failed").expect("expected a plan");
    pin.apply_reconfigure(plan, ReconfigOutcome::Applied).expect("conversion failed");
    assert_eq!(pin.config.direction, Direction::Input);

    let plan = pin.into_output_plan(Level::Low).expect("plan failed").expect("expected a plan");
    pin.apply_reconfigure(plan, ReconfigOutcome::Applied).expect("conversion failed");
    assert_eq!(pin.config.direction, Direction::Output);
    assert_eq!(pin.cached_output_level(), Ok(Level::Low));
}

#[test]
fn direction_mismatch_is_rejected() {
    let in_pin = LinePin::acquire_result(4, LineConfig::input(false), true)
        .expect("acquire failed");
    assert_eq!(in_pin.write_plan(Level::High), Err(PinError::InvalidOperationForDirection));
    assert_eq!(in_pin.cached_output_level(), Err(PinError::InvalidOperationForDirection));

    let out_pin = LinePin::acquire_result(17, LineConfig::output(false, Level::Low), true)
        .expect("acquire failed");
    assert_eq!(
        out_pin.read_level(RawValue::Active),
        Err(PinError::InvalidOperationForDirection)
    );
}

#[test]
fn failed_write_keeps_cache() {
    let mut pin = LinePin::acquire_result(17, LineConfig::output(false, Level::Low), true)
        .expect("acquire failed");
    let r = pin.write_result(Level::High, false);
    assert_eq!(r, Err(PinError::IoFailed));
    assert_eq!(pin.cached_output_level(), Ok(Level::Low));
}

#[test]
fn release_is_idempotent() {
    let mut pin = LinePin::acquire_result(4, LineConfig::input(false), true)
        .expect("acquire failed");
    pin.release();
    assert!(!pin.held);
    pin.release();
    assert!(!pin.held);
    assert_eq!(pin.read_level(RawValue::Active), Err(PinError::IoFailed));
}
