use vstd::prelude::*;
use vstd::string::*;

use crate::config::{decimal, Config};

verus! {

/// How a request to the actuator failed: it could not be started, or it ran
/// and reported failure.
#[derive(Debug, Clone, Copy, PartialEq, Eq, Structural)]
pub enum ActuatorErrorKind {
    SpawnFailure,
    ReturnedFailure,
}

/// What one run of the actuator came to.
#[derive(Debug, Clone, Copy, PartialEq, Eq, Structural)]
pub enum Outcome {
    Succeeded,
    SpawnFailed,
    ReportedFailure,
}

/// Progress through the repetitions of one request: `done` runs of `total`
/// have succeeded.
#[derive(Debug, Clone, Copy, PartialEq, Eq, Structural)]
pub struct Repetition {
    pub total: u8,
    pub done: u8,
}

/// What to do next: run the actuator once more, or answer the request.
#[derive(Debug, Clone, Copy, PartialEq, Eq)]
pub enum Step {
    Invoke(Repetition),
    Done(Result<(), ActuatorErrorKind>),
}

/// The failure that an outcome other than success stands for.
pub open spec fn failure_of(o: Outcome) -> ActuatorErrorKind {
    match o {
        Outcome::ReportedFailure => ActuatorErrorKind::ReturnedFailure,
        _ => ActuatorErrorKind::SpawnFailure,
    }
}

/// The first step of a request that repeats the command `total` times.
pub open spec fn first_step(total: u8) -> Step {
    if total == 0 {
        Step::Done(Ok(()))
    } else {
        Step::Invoke(Repetition { total, done: 0 })
    }
}

impl Repetition {
    /// A run is still owed.
    pub open spec fn wf(&self) -> bool {
        self.done < self.total
    }

    /// The step after a run came to `o`: a failure ends the request at once,
    /// a success moves on until all runs are done.
    pub open spec fn next_spec(self, o: Outcome) -> Step {
        match o {
            Outcome::Succeeded => if self.done + 1 >= self.total {
                Step::Done(Ok(()))
            } else {
                Step::Invoke(Repetition { total: self.total, done: (self.done + 1) as u8 })
            },
            _ => Step::Done(Err(failure_of(o))),
        }
    }

    /// Starts a request that repeats the command `total` times.
    pub fn start(total: u8) -> (r: Step)
        ensures
            r == first_step(total),
            r matches Step::Invoke(rep) ==> rep.wf(),
    {
        if total == 0 {
            Step::Done(Ok(()))
        } else {
            Step::Invoke(Repetition { total, done: 0 })
        }
    }

    /// Decides what follows a run that came to `o`.
    pub fn next(self, o: Outcome) -> (r: Step)
        requires
            self.wf(),
        ensures
            r == self.next_spec(o),
            r matches Step::Invoke(rep) ==> rep.wf(),
    {
        match o {
            Outcome::Succeeded => if self.done + 1 >= self.total {
                Step::Done(Ok(()))
            } else {
                Step::Invoke(Repetition { total: self.total, done: self.done + 1 })
            },
            Outcome::SpawnFailed => Step::Done(Err(ActuatorErrorKind::SpawnFailure)),
            Outcome::ReportedFailure => Step::Done(Err(ActuatorErrorKind::ReturnedFailure)),
        }
    }
}

/// Feeds the outcomes `outs` to the machine from `step` on, while it asks
/// for runs; gives the step reached and how many runs were made.
pub open spec fn run(step: Step, outs: Seq<Outcome>) -> (Step, nat)
    decreases outs.len(),
{
    match step {
        Step::Invoke(rep) => if outs.len() == 0 {
            (step, 0)
        } else {
            let (last, n) = run(rep.next_spec(outs[0]), outs.drop_first());
            (last, n + 1)
        },
        Step::Done(_) => (step, 0),
    }
}

} // verus!

verus! {

/// The first `k` outcomes are successes.
pub open spec fn all_succeed(outs: Seq<Outcome>, k: int) -> bool {
    forall|i: int| 0 <= i < k ==> #[trigger] outs[i] == Outcome::Succeeded
}

proof fn lemma_run_from(total: u8, done: u8, outs: Seq<Outcome>)
    requires
        done < total,
        outs.len() >= total - done,
    ensures
        all_succeed(outs, total - done) ==> run(
            Step::Invoke(Repetition { total, done }),
            outs,
        ) == (Step::Done(Ok(())), (total - done) as nat),
        forall|j: int|
            0 <= j < total - done && all_succeed(outs, j) && #[trigger] outs[j]
                != Outcome::Succeeded ==> run(Step::Invoke(Repetition { total, done }), outs) == (
                Step::Done(Err(failure_of(outs[j]))),
                (j + 1) as nat,
            ),
    decreases outs.len(),
{
    let rest = outs.drop_first();
    let rep = Repetition { total, done };
    if outs[0] == Outcome::Succeeded {
        if done + 1 < total {
            lemma_run_from(total, (done + 1) as u8, rest);
            assert(all_succeed(outs, total - done) ==> all_succeed(rest, total - done - 1)) by {
                if all_succeed(outs, total - done) {
                    assert forall|i: int| 0 <= i < total - done - 1 implies #[trigger] rest[i]
                        == Outcome::Succeeded by {
                        assert(rest[i] == outs[i + 1]);
                    }
                }
            }
            assert forall|j: int|
                0 <= j < total - done && all_succeed(outs, j) && #[trigger] outs[j]
                    != Outcome::Succeeded implies run(Step::Invoke(rep), outs) == (
                Step::Done(Err(failure_of(outs[j]))),
                (j + 1) as nat,
            ) by {
                assert(j >= 1);
                assert(rest[j - 1] == outs[j]);
                assert(all_succeed(rest, j - 1)) by {
                    assert forall|i: int| 0 <= i < j - 1 implies #[trigger] rest[i]
                        == Outcome::Succeeded by {
                        assert(rest[i] == outs[i + 1]);
                    }
                }
            }
        } else {
            assert(run(Step::Done(Ok(())), rest) == (Step::Done(Ok(())), 0nat));
        }
    } else {
        assert(run(Step::Done(Err(failure_of(outs[0]))), rest) == (
            Step::Done(Err(failure_of(outs[0]))),
            0nat,
        ));
        assert forall|j: int|
            0 <= j < total - done && all_succeed(outs, j) && #[trigger] outs[j]
                != Outcome::Succeeded implies j == 0 by {
            if j > 0 {
                assert(outs[0] == Outcome::Succeeded);
            }
        }
    }
}

/// A request that repeats the command `total` times, fed one outcome per run:
/// when every run succeeds it makes exactly `total` runs and succeeds; when
/// run `j` is the first to fail it stops right after that run, with the kind
/// of that failure, and makes no further run.
pub proof fn lemma_repetitions(total: u8, outs: Seq<Outcome>)
    requires
        outs.len() >= total,
    ensures
        all_succeed(outs, total as int) ==> run(first_step(total), outs) == (
            Step::Done(Ok(())),
            total as nat,
        ),
        forall|j: int|
            0 <= j < total && all_succeed(outs, j) && #[trigger] outs[j] != Outcome::Succeeded
                ==> run(first_step(total), outs) == (
                Step::Done(Err(failure_of(outs[j]))),
                (j + 1) as nat,
            ),
{
    if total > 0 {
        lemma_run_from(total, 0, outs);
    }
}

} // verus!

verus! {

/// Relies on `<u8 as ToString>::to_string`, which formats through `Display`:
/// the plain decimal digits of the value.
#[verifier::external_body]
fn u8_to_decimal(n: u8) -> (r: String)
    ensures
        r@ == decimal(n as nat),
{
    n.to_string()
}

/// The address argument handed to the actuator: `-`, the house code, then the
/// device number in decimal, such as `-A1`.
pub open spec fn address_arg(house_code: Seq<char>, device_number: u8) -> Seq<char> {
    seq!['-'] + house_code + decimal(device_number as nat)
}

impl Config {
    /// The arguments of each run of the actuator: the actuator's path, then
    /// the address of the device to switch off.
    pub fn command_args(&self) -> (r: Vec<String>)
        ensures
            r@.len() == 2,
            r@[0]@ == self.actuator_path@,
            r@[1]@ == address_arg(self.house_code@, self.device_number),
    {
        let mut address = String::from_str("-");
        proof {
            reveal_strlit("-");
        }
        address.append(self.house_code.as_str());
        let digits = u8_to_decimal(self.device_number);
        address.append(digits.as_str());
        let mut r: Vec<String> = Vec::new();
        r.push(self.actuator_path.clone());
        r.push(address);
        r
    }
}

} // verus!

verus! {

/// The body of the answer to a request to switch the fan off.
pub open spec fn response_text_of(result: Result<(), ActuatorErrorKind>) -> Seq<char> {
    match result {
        Ok(()) => "X10 doesn't support confirming, but the fan should be off now."@,
        Err(ActuatorErrorKind::SpawnFailure) =>
            "Failed to ask for the fan to be turned off: Couldn't call the actuator"@,
        Err(ActuatorErrorKind::ReturnedFailure) =>
            "Failed to ask for the fan to be turned off: Actuator reported failure"@,
    }
}

/// The HTTP status of that answer: 200 once the commands were sent, 500 when
/// the actuator failed.
pub open spec fn response_status_of(result: Result<(), ActuatorErrorKind>) -> u16 {
    match result {
        Ok(()) => 200,
        Err(_) => 500,
    }
}

/// The body of the answer; a success says that X10 confirms nothing.
pub fn response_text(result: Result<(), ActuatorErrorKind>) -> (r: &'static str)
    ensures
        r@ == response_text_of(result),
{
    match result {
        Ok(()) => "X10 doesn't support confirming, but the fan should be off now.",
        Err(ActuatorErrorKind::SpawnFailure) =>
            "Failed to ask for the fan to be turned off: Couldn't call the actuator",
        Err(ActuatorErrorKind::ReturnedFailure) =>
            "Failed to ask for the fan to be turned off: Actuator reported failure",
    }
}

/// The HTTP status of the answer.
pub fn response_status(result: Result<(), ActuatorErrorKind>) -> (r: u16)
    ensures
        r == response_status_of(result),
{
    match result {
        Ok(()) => 200,
        Err(_) => 500,
    }
}

} // verus!
