use hass_bridge::startup::{next_phase, Phase};

fn run(outcomes: &[bool]) -> Phase {
    outcomes.iter().fold(Phase::LoadConfig, |p, ok| next_phase(p, *ok))
}

#[test]
fn valid_start_serves_even_if_notification_fails() {
    assert_eq!(run(&[true, true, true, true]), Phase::Serving);
    assert_eq!(run(&[true, true, false, true]), Phase::Serving);
}

#[test]
fn invalid_address_aborts() {
    assert_eq!(run(&[true, false]), Phase::Aborted);
    assert_eq!(run(&[true, false, true, true]), Phase::Aborted);
}

#[test]
fn config_failure_aborts() {
    assert_eq!(next_phase(Phase::LoadConfig, false), Phase::Aborted);
    assert_eq!(run(&[false, true, true, true]), Phase::Aborted);
}

#[test]
fn bind_failure_aborts() {
    assert_eq!(run(&[true, true, true, false]), Phase::Aborted);
}

#[test]
fn each_step_in_order() {
    assert_eq!(next_phase(Phase::LoadConfig, true), Phase::ParseAddress);
    assert_eq!(next_phase(Phase::ParseAddress, true), Phase::Notify);
    assert_eq!(next_phase(Phase::Notify, false), Phase::Bind);
    assert_eq!(next_phase(Phase::Bind, true), Phase::Serving);
    assert_eq!(next_phase(Phase::Serving, false), Phase::Serving);
    assert_eq!(next_phase(Phase::Aborted, true), Phase::Aborted);
}
