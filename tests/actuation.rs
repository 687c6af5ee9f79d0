use fan_remote::actuator::{
    response_status, response_text, ActuatorErrorKind, Outcome, Repetition, Step,
};
use fan_remote::config::Config;
use fan_remote::notice::request_notice;

fn config(house: &str, device: u8, repeats: u8) -> Config {
    Config {
        actuator_path: "/usr/local/bin/pycm19a.py".to_string(),
        house_code: house.to_string(),
        device_number: device,
        listen_port: 8000,
        repeat_count: repeats,
    }
}

/// Runs a request against a mock actuator that answers with `outcomes` in
/// turn; gives the arguments of each run and the final result.
fn drive(
    c: &Config,
    outcomes: &[Outcome],
) -> (Vec<Vec<String>>, Result<(), ActuatorErrorKind>) {
    let mut calls = Vec::new();
    let mut step = Repetition::start(c.repeat_count);
    loop {
        match step {
            Step::Invoke(rep) => {
                calls.push(c.command_args());
                step = rep.next(outcomes[calls.len() - 1]);
            }
            Step::Done(result) => return (calls, result),
        }
    }
}

#[test]
fn command_args_encode_house_and_device() {
    assert_eq!(
        config("A", 1, 4).command_args(),
        vec!["/usr/local/bin/pycm19a.py".to_string(), "-A1".to_string()]
    );
    assert_eq!(config("P", 16, 1).command_args()[1], "-P16");
}

#[test]
fn four_repeats_make_four_identical_runs() {
    let c = config("A", 1, 4);
    let (calls, result) = drive(&c, &[Outcome::Succeeded; 8]);
    assert_eq!(calls.len(), 4);
    for args in &calls {
        assert_eq!(args[1], "-A1");
    }
    assert_eq!(result, Ok(()));
}

#[test]
fn working_actuator_runs_repeat_count_times() {
    for n in [1u8, 2, 7] {
        let (calls, result) = drive(&config("C", 9, n), &[Outcome::Succeeded; 8]);
        assert_eq!(calls.len(), n as usize);
        assert!(calls.iter().all(|a| a[1] == "-C9"));
        assert_eq!(result, Ok(()));
    }
}

#[test]
fn zero_repeats_make_no_run() {
    let (calls, result) = drive(&config("A", 1, 0), &[]);
    assert!(calls.is_empty());
    assert_eq!(result, Ok(()));
}

#[test]
fn spawn_failure_stops_after_one_run() {
    let (calls, result) = drive(&config("A", 1, 4), &[Outcome::SpawnFailed; 4]);
    assert_eq!(calls.len(), 1);
    assert_eq!(result, Err(ActuatorErrorKind::SpawnFailure));
}

#[test]
fn reported_failure_stops_after_one_run() {
    let (calls, result) = drive(
        &config("A", 1, 4),
        &[Outcome::ReportedFailure, Outcome::Succeeded, Outcome::Succeeded, Outcome::Succeeded],
    );
    assert_eq!(calls.len(), 1);
    assert_eq!(result, Err(ActuatorErrorKind::ReturnedFailure));
}

#[test]
fn later_failure_stops_right_after_it() {
    let (calls, result) = drive(
        &config("A", 1, 4),
        &[Outcome::Succeeded, Outcome::Succeeded, Outcome::SpawnFailed, Outcome::Succeeded],
    );
    assert_eq!(calls.len(), 3);
    assert_eq!(result, Err(ActuatorErrorKind::SpawnFailure));
}

#[test]
fn machine_steps_one_run_at_a_time() {
    assert_eq!(Repetition::start(2), Step::Invoke(Repetition { total: 2, done: 0 }));
    let rep = Repetition { total: 2, done: 0 };
    assert_eq!(rep.next(Outcome::Succeeded), Step::Invoke(Repetition { total: 2, done: 1 }));
    let rep = Repetition { total: 2, done: 1 };
    assert_eq!(rep.next(Outcome::Succeeded), Step::Done(Ok(())));
    assert_eq!(
        rep.next(Outcome::ReportedFailure),
        Step::Done(Err(ActuatorErrorKind::ReturnedFailure))
    );
}

#[test]
fn responses_tell_the_failures_apart() {
    assert_eq!(response_status(Ok(())), 200);
    assert_eq!(
        response_text(Ok(())),
        "X10 doesn't support confirming, but the fan should be off now."
    );
    assert_eq!(response_status(Err(ActuatorErrorKind::SpawnFailure)), 500);
    assert_eq!(response_status(Err(ActuatorErrorKind::ReturnedFailure)), 500);
    let spawn = response_text(Err(ActuatorErrorKind::SpawnFailure));
    let returned = response_text(Err(ActuatorErrorKind::ReturnedFailure));
    assert!(spawn.contains("Couldn't call the actuator"));
    assert!(returned.contains("Actuator reported failure"));
    assert_ne!(spawn, returned);
}

#[test]
fn notice_names_the_peer_or_a_placeholder() {
    assert_eq!(
        request_notice(Some("192.168.1.7")),
        "A user at IP address 192.168.1.7 requested that the fan be turned off."
    );
    assert_eq!(
        request_notice(None),
        "A user at IP address <unknown> requested that the fan be turned off."
    );
}
