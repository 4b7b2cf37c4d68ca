//! Plans: what the phases of a commit sequence come to when they are taken
//! one after the other, and the first that refuses the configuration ends
//! the sequence.

use vstd::prelude::*;
use crate::error::ClockError;
use crate::rcc::clocks::Frequencies;
use crate::registers::{Access, Field};
use crate::sequence::{
    lemma_performed_cut, lemma_performed_then, performed, phase_performed, Outcome, Phase, Step,
};

verus! {

/// What a sequence of phases comes to on hardware that answers every wait.
pub struct Plan {
    /// The steps taken, in order.
    pub steps: Seq<Step>,
    /// The state of the clock tree behind the last step, or the error of the
    /// phase that refused the configuration.
    pub result: Result<Frequencies, ClockError>,
}

/// The plan of the phases from the one at `from` on, which leave the clock
/// tree in the state `frozen` if none of them refuses the configuration.
///
/// The phases are taken in order. A phase that refuses the configuration
/// ends the plan with its error: neither its own steps nor any later phase
/// is part of the plan.
pub open spec fn plan_from(phases: Seq<Phase>, from: int, frozen: Frequencies) -> Plan
    decreases phases.len() - from,
{
    if from < 0 || from >= phases.len() {
        Plan { steps: Seq::empty(), result: Ok(frozen) }
    } else {
        match phases[from].check {
            Some(refusal) => Plan { steps: Seq::empty(), result: Err(refusal) },
            None => {
                let rest = plan_from(phases, from + 1, frozen);
                Plan { steps: phases[from].steps + rest.steps, result: rest.result }
            },
        }
    }
}

/// The steps of the phases from the one at `from` up to, and without, the
/// one at `to`, in order.
pub open spec fn steps_between(phases: Seq<Phase>, from: int, to: int) -> Seq<Step>
    decreases to - from,
{
    if from >= to {
        Seq::empty()
    } else {
        phases[from].steps + steps_between(phases, from + 1, to)
    }
}

/// The steps of a stretch of phases are those of its first part followed by
/// those of its second part.
pub proof fn lemma_steps_split(phases: Seq<Phase>, from: int, middle: int, to: int)
    requires
        from <= middle <= to,
    ensures
        steps_between(phases, from, to) == steps_between(phases, from, middle) + steps_between(
            phases,
            middle,
            to,
        ),
    decreases middle - from,
{
    if from < middle {
        lemma_steps_split(phases, from + 1, middle, to);
        assert(steps_between(phases, from, to) =~= steps_between(phases, from, middle)
            + steps_between(phases, middle, to));
    } else {
        assert(steps_between(phases, from, to) =~= steps_between(phases, from, middle)
            + steps_between(phases, middle, to));
    }
}

/// The steps of a stretch of one phase are the steps of that phase.
pub proof fn lemma_steps_single(phases: Seq<Phase>, at: int)
    ensures
        steps_between(phases, at, at + 1) == phases[at].steps,
{
    reveal_with_fuel(steps_between, 2);
    assert(steps_between(phases, at, at + 1) =~= phases[at].steps);
}

/// The steps of a plan are the steps of the phases before the first that
/// refuses the configuration, each phase's in full and in the order of the
/// phases: where no phase from `from` up to `at` refuses it, and phase `at`
/// does or there is no phase `at`, the plan from `from` on takes the steps of
/// the phases from `from` up to `at` and no others.
pub proof fn lemma_plan_steps(phases: Seq<Phase>, from: int, at: int, frozen: Frequencies)
    requires
        0 <= from <= at <= phases.len(),
        at < phases.len() ==> phases[at].check is Some,
        forall|earlier: int| from <= earlier < at ==> (#[trigger] phases[earlier]).check is None,
    ensures
        plan_from(phases, from, frozen).steps == steps_between(phases, from, at),
    decreases at - from,
{
    if from < at {
        assert(phases[from].check is None);
        lemma_plan_steps(phases, from + 1, at, frozen);
    }
}

/// A plan comes to the error of the first phase that refuses the
/// configuration: where phase `at` refuses it and no phase from `from` up to
/// `at` does, the plan from `from` on comes to the error of phase `at`.
pub proof fn lemma_first_refusal(phases: Seq<Phase>, from: int, at: int, frozen: Frequencies)
    requires
        0 <= from <= at < phases.len(),
        phases[at].check is Some,
        forall|earlier: int| from <= earlier < at ==> (#[trigger] phases[earlier]).check is None,
    ensures
        plan_from(phases, from, frozen).result == Err::<Frequencies, ClockError>(
            phases[at].check->0,
        ),
    decreases at - from,
{
    if from < at {
        assert(phases[from].check is None);
        lemma_first_refusal(phases, from + 1, at, frozen);
    }
}

/// A plan with a phase that refuses the configuration comes to an error.
pub proof fn lemma_refusal_is_fatal(phases: Seq<Phase>, from: int, at: int, frozen: Frequencies)
    requires
        0 <= from <= at < phases.len(),
        phases[at].check is Some,
    ensures
        plan_from(phases, from, frozen).result is Err,
    decreases at - from,
{
    if from < at && phases[from].check is None {
        lemma_refusal_is_fatal(phases, from + 1, at, frozen);
    }
}

/// A plan none of whose phases refuses the configuration comes to the state
/// behind the last phase.
pub proof fn lemma_no_refusal(phases: Seq<Phase>, from: int, frozen: Frequencies)
    requires
        0 <= from <= phases.len(),
        forall|at: int| from <= at < phases.len() ==> (#[trigger] phases[at]).check is None,
    ensures
        plan_from(phases, from, frozen).result == Ok::<Frequencies, ClockError>(frozen),
    decreases phases.len() - from,
{
    if from < phases.len() {
        assert(phases[from].check is None);
        lemma_no_refusal(phases, from + 1, frozen);
    }
}

/// Whether the history `after` is the history `before` followed by a run of
/// `script` that came to `result`, where the script would come to `planned`
/// on hardware that answers every wait.
///
/// Either the run ended in a wait that gave up, and the result is
/// [`ClockError::Timeout`] for the awaited field; or every step of the
/// script was taken, and the result is the planned one.
pub open spec fn concluded(
    before: Seq<Access>,
    after: Seq<Access>,
    script: Seq<Step>,
    planned: Result<Frequencies, ClockError>,
    limit: nat,
    result: Result<Frequencies, ClockError>,
) -> bool {
    match result {
        Err(ClockError::Timeout(field)) => performed(
            before,
            after,
            script,
            limit,
            Outcome::TimedOut(field),
        ),
        _ => result == planned && performed(before, after, script, limit, Outcome::Completed),
    }
}

/// The course of a commit sequence: the history it started from, the steps
/// taken before its first phase, its phases, and the state they leave the
/// clock tree in if none of them refuses the configuration.
pub struct Course {
    /// The history before the first access of the sequence.
    pub start: Seq<Access>,
    /// The steps taken before the first phase.
    pub prelude: Seq<Step>,
    /// The phases, in their order.
    pub phases: Seq<Phase>,
    /// The state of the clock tree behind the last phase.
    pub frozen: Frequencies,
    /// How many reads a wait may make.
    pub limit: nat,
}

impl Course {
    /// Every step of the sequence on hardware that answers every wait.
    pub open spec fn script(self) -> Seq<Step> {
        self.prelude + plan_from(self.phases, 0, self.frozen).steps
    }

    /// What the sequence comes to on hardware that answers every wait.
    pub open spec fn planned(self) -> Result<Frequencies, ClockError> {
        plan_from(self.phases, 0, self.frozen).result
    }

    /// Whether the sequence has come as far as phase `at` with the history
    /// `now`: the steps before that phase have been run to the end, and the
    /// phases from `at` on are all that is left of the script.
    #[verifier::opaque]
    pub open spec fn reached(self, now: Seq<Access>, at: int) -> bool {
        exists|done: Seq<Step>|
            {
                &&& #[trigger] performed(self.start, now, done, self.limit, Outcome::Completed)
                &&& self.script() == done + plan_from(self.phases, at, self.frozen).steps
                &&& self.planned() == plan_from(self.phases, at, self.frozen).result
            }
    }

    /// Whether the sequence has ended with the history `now` and come to
    /// `result`.
    pub open spec fn concluded(self, now: Seq<Access>, result: Result<Frequencies, ClockError>) -> bool {
        concluded(self.start, now, self.script(), self.planned(), self.limit, result)
    }

    /// Once the prelude has been run to the end, the first phase is
    /// reached.
    pub proof fn lemma_begun(self, now: Seq<Access>)
        requires
            performed(self.start, now, self.prelude, self.limit, Outcome::Completed),
        ensures
            self.reached(now, 0),
    {
        reveal(Course::reached);
    }

    /// Where a wait of the prelude gives up, the sequence ends there.
    pub proof fn lemma_stalled(self, now: Seq<Access>, field: Field)
        requires
            performed(self.start, now, self.prelude, self.limit, Outcome::TimedOut(field)),
        ensures
            self.concluded(now, Err(ClockError::Timeout(field))),
    {
        lemma_performed_cut(
            self.start,
            now,
            self.prelude,
            plan_from(self.phases, 0, self.frozen).steps,
            self.limit,
            field,
        );
    }

    /// One more phase taken: where phase `at` was reached and has been
    /// performed without error, the next phase is reached; where it has
    /// been performed with an error, the sequence has ended and come to
    /// that error.
    pub proof fn lemma_phase_taken(
        self,
        at: int,
        before: Seq<Access>,
        after: Seq<Access>,
        error: Option<ClockError>,
    )
        requires
            0 <= at < self.phases.len(),
            !(self.phases[at].check matches Some(ClockError::Timeout(_))),
            self.reached(before, at),
            phase_performed(before, after, self.phases[at], self.limit, error),
        ensures
            match error {
                None => self.reached(after, at + 1),
                Some(error) => self.concluded(after, Err(error)),
            },
    {
        reveal(Course::reached);
        let done = choose|done: Seq<Step>|
            {
                &&& #[trigger] performed(self.start, before, done, self.limit, Outcome::Completed)
                &&& self.script() == done + plan_from(self.phases, at, self.frozen).steps
                &&& self.planned() == plan_from(self.phases, at, self.frozen).result
            };
        let rest = plan_from(self.phases, at + 1, self.frozen).steps;
        let steps = self.phases[at].steps;
        match self.phases[at].check {
            Some(refusal) => {
                assert(self.script() =~= done);
            },
            None => {
                assert(self.script() =~= (done + steps) + rest);
                match error {
                    None => {
                        lemma_performed_then(
                            self.start,
                            before,
                            after,
                            done,
                            steps,
                            self.limit,
                            Outcome::Completed,
                        );
                        assert(performed(
                            self.start,
                            after,
                            done + steps,
                            self.limit,
                            Outcome::Completed,
                        ));
                    },
                    Some(ClockError::Timeout(field)) => {
                        lemma_performed_then(
                            self.start,
                            before,
                            after,
                            done,
                            steps,
                            self.limit,
                            Outcome::TimedOut(field),
                        );
                        lemma_performed_cut(self.start, after, done + steps, rest, self.limit, field);
                    },
                    Some(_) => {},
                }
            },
        }
    }

    /// Behind the last phase the sequence has ended and come to the state
    /// that the phases leave the clock tree in.
    pub proof fn lemma_finished(self, now: Seq<Access>)
        requires
            self.reached(now, self.phases.len() as int),
        ensures
            self.concluded(now, Ok(self.frozen)),
    {
        reveal(Course::reached);
        let done = choose|done: Seq<Step>|
            {
                &&& #[trigger] performed(self.start, now, done, self.limit, Outcome::Completed)
                &&& self.script() == done + plan_from(
                    self.phases,
                    self.phases.len() as int,
                    self.frozen,
                ).steps
                &&& self.planned() == plan_from(
                    self.phases,
                    self.phases.len() as int,
                    self.frozen,
                ).result
            };
        assert(self.script() =~= done);
    }
}

} // verus!
