//! Scripts of register accesses, and what it means for a stretch of a
//! register block's history to be a run of a script.
//!
//! A script says which accesses are made and in which order. What it leaves
//! open is what the hardware answers: how often a flag is read before it
//! shows the awaited value, and so how long the stretch of history is.
//! [`replay`] reads a trace against a script and tells whether the trace is a
//! run of it, to the end or up to a wait that gave up.

use vstd::prelude::*;
use crate::error::ClockError;
use crate::registers::{Access, Field, RegisterBlock};

verus! {

/// One step of a script.
pub enum Step {
    /// The access is made once, as given.
    Issue(Access),
    /// `field` is read until it holds `expected`. After as many reads as the
    /// poll limit allows the wait gives up, and the script ends there.
    Wait { field: Field, expected: u32 },
    /// `field` is read once. If it holds `expected`, the next `skip` steps
    /// are left out.
    Probe { field: Field, expected: u32, skip: nat },
}

/// How a run of a script ended.
pub enum Outcome {
    /// Every step was taken.
    Completed,
    /// The wait for this field gave up; no later step was taken.
    TimedOut(Field),
}

/// Whether `access` is a read of `field` that found `value`.
pub open spec fn is_read(access: Access, field: Field, value: u32) -> bool {
    access == (Access::Read { field, value })
}

/// Whether `access` is a read of `field` that found something other than
/// `expected`.
pub open spec fn is_miss(access: Access, field: Field, expected: u32) -> bool {
    match access {
        Access::Read { field: f, value } => f == field && value != expected,
        _ => false,
    }
}

/// Reads `trace` as a wait for `field` to hold `expected` with `budget` reads
/// allowed: how many reads the wait made, and whether the last of them found
/// `expected`. `None` where the trace does not start with such a wait.
pub open spec fn poll(trace: Seq<Access>, field: Field, expected: u32, budget: nat) -> Option<
    (nat, bool),
>
    decreases budget,
{
    if budget == 0 {
        Some((0nat, false))
    } else if trace.len() == 0 {
        None
    } else if is_read(trace[0], field, expected) {
        Some((1nat, true))
    } else if is_miss(trace[0], field, expected) {
        match poll(trace.skip(1), field, expected, (budget - 1) as nat) {
            Some((reads, found)) => Some((reads + 1, found)),
            None => None,
        }
    } else {
        None
    }
}

/// Reads `trace` as a run of `script` in which no wait makes more than
/// `limit` reads. `None` where the trace is no run of the script: it must
/// hold the script's accesses, in the script's order, and nothing else.
pub open spec fn replay(script: Seq<Step>, limit: nat, trace: Seq<Access>) -> Option<Outcome>
    decreases script.len(),
{
    if script.len() == 0 {
        if trace.len() == 0 {
            Some(Outcome::Completed)
        } else {
            None
        }
    } else {
        match script[0] {
            Step::Issue(access) => {
                if trace.len() > 0 && trace[0] == access {
                    replay(script.skip(1), limit, trace.skip(1))
                } else {
                    None
                }
            },
            Step::Wait { field, expected } => {
                match poll(trace, field, expected, limit) {
                    Some((reads, true)) => replay(script.skip(1), limit, trace.skip(reads as int)),
                    Some((reads, false)) => {
                        if trace.len() == reads {
                            Some(Outcome::TimedOut(field))
                        } else {
                            None
                        }
                    },
                    None => None,
                }
            },
            Step::Probe { field, expected, skip } => {
                if trace.len() > 0 && skip < script.len() {
                    if is_read(trace[0], field, expected) {
                        replay(script.skip(1 + skip as int), limit, trace.skip(1))
                    } else if is_miss(trace[0], field, expected) {
                        replay(script.skip(1), limit, trace.skip(1))
                    } else {
                        None
                    }
                } else {
                    None
                }
            },
        }
    }
}

/// Whether the history `after` is the history `before` followed by a run of
/// `script` that ended in `outcome`.
pub open spec fn performed(
    before: Seq<Access>,
    after: Seq<Access>,
    script: Seq<Step>,
    limit: nat,
    outcome: Outcome,
) -> bool {
    &&& before.len() <= after.len()
    &&& after.subrange(0, before.len() as int) == before
    &&& replay(script, limit, after.skip(before.len() as int)) == Some(outcome)
}

/// One phase of bringing a configuration into effect: a check of the
/// configuration, and the steps that are taken where the check passes.
pub struct Phase {
    /// The error that the configuration is refused with, if it is refused.
    pub check: Option<ClockError>,
    /// The steps taken where it is not.
    pub steps: Seq<Step>,
}

/// The phase that checks nothing and takes `steps`.
pub open spec fn unchecked(steps: Seq<Step>) -> Phase {
    Phase { check: None, steps }
}

/// Whether the history `after` is the history `before` followed by what
/// `phase` does, and `error` is how the phase failed, if it did.
///
/// A configuration that the phase refuses is refused with the phase's error
/// before any access is made. Otherwise the phase's steps are run: to the
/// end, with no error, or up to a wait that gave up, with
/// [`ClockError::Timeout`] for the awaited field.
pub open spec fn phase_performed(
    before: Seq<Access>,
    after: Seq<Access>,
    phase: Phase,
    limit: nat,
    error: Option<ClockError>,
) -> bool {
    match phase.check {
        Some(refusal) => error == Some(refusal) && after == before,
        None => match error {
            None => performed(before, after, phase.steps, limit, Outcome::Completed),
            Some(ClockError::Timeout(field)) => performed(
                before,
                after,
                phase.steps,
                limit,
                Outcome::TimedOut(field),
            ),
            Some(_) => false,
        },
    }
}

/// A wait reads no further than its own reads: what follows them in the trace
/// does not change how it is read.
pub proof fn lemma_poll_extend(
    trace: Seq<Access>,
    more: Seq<Access>,
    field: Field,
    expected: u32,
    budget: nat,
)
    requires
        poll(trace, field, expected, budget) is Some,
    ensures
        poll(trace + more, field, expected, budget) == poll(trace, field, expected, budget),
        poll(trace, field, expected, budget).unwrap().0 <= trace.len(),
    decreases budget,
{
    if budget > 0 && is_miss(trace[0], field, expected) {
        assert((trace + more).skip(1) =~= trace.skip(1) + more);
        lemma_poll_extend(trace.skip(1), more, field, expected, (budget - 1) as nat);
    }
}

/// A completed run of one script followed by a run of another is a run of
/// the two scripts joined.
pub proof fn lemma_replay_extend(
    first: Seq<Step>,
    head: Seq<Access>,
    second: Seq<Step>,
    tail: Seq<Access>,
    limit: nat,
)
    requires
        replay(first, limit, head) == Some(Outcome::Completed),
    ensures
        replay(first + second, limit, head + tail) == replay(second, limit, tail),
    decreases first.len(),
{
    if first.len() == 0 {
        assert(first + second =~= second);
        assert(head + tail =~= tail);
    } else {
        let script = first + second;
        let trace = head + tail;
        assert(script[0] == first[0]);
        assert(script.skip(1) =~= first.skip(1) + second);
        match first[0] {
            Step::Issue(access) => {
                assert(trace.skip(1) =~= head.skip(1) + tail);
                lemma_replay_extend(first.skip(1), head.skip(1), second, tail, limit);
            },
            Step::Wait { field, expected } => {
                lemma_poll_extend(head, tail, field, expected, limit);
                let reads = poll(head, field, expected, limit).unwrap().0;
                assert(trace.skip(reads as int) =~= head.skip(reads as int) + tail);
                lemma_replay_extend(first.skip(1), head.skip(reads as int), second, tail, limit);
            },
            Step::Probe { field, expected, skip } => {
                assert(trace.skip(1) =~= head.skip(1) + tail);
                if is_read(head[0], field, expected) {
                    assert(script.skip(1 + skip as int) =~= first.skip(1 + skip as int) + second);
                    lemma_replay_extend(first.skip(1 + skip as int), head.skip(1), second, tail, limit);
                } else {
                    lemma_replay_extend(first.skip(1), head.skip(1), second, tail, limit);
                }
            },
        }
    }
}

/// A run that ended in a wait giving up is such a run of every script that
/// starts with the same steps.
pub proof fn lemma_replay_cut(
    first: Seq<Step>,
    second: Seq<Step>,
    trace: Seq<Access>,
    limit: nat,
    field: Field,
)
    requires
        replay(first, limit, trace) == Some(Outcome::TimedOut(field)),
    ensures
        replay(first + second, limit, trace) == Some(Outcome::TimedOut(field)),
    decreases first.len(),
{
    if first.len() > 0 {
        let script = first + second;
        assert(script[0] == first[0]);
        assert(script.skip(1) =~= first.skip(1) + second);
        match first[0] {
            Step::Issue(access) => {
                lemma_replay_cut(first.skip(1), second, trace.skip(1), limit, field);
            },
            Step::Wait { field: awaited, expected } => {
                let (reads, found) = poll(trace, awaited, expected, limit)->0;
                if found {
                    lemma_replay_cut(first.skip(1), second, trace.skip(reads as int), limit, field);
                }
            },
            Step::Probe { field: probed, expected, skip } => {
                if is_read(trace[0], probed, expected) {
                    assert(script.skip(1 + skip as int) =~= first.skip(1 + skip as int) + second);
                    lemma_replay_cut(first.skip(1 + skip as int), second, trace.skip(1), limit, field);
                } else {
                    lemma_replay_cut(first.skip(1), second, trace.skip(1), limit, field);
                }
            },
        }
    }
}

/// Nothing done is a completed run of the empty script.
pub proof fn lemma_performed_nothing(before: Seq<Access>, limit: nat)
    ensures
        performed(before, before, Seq::<Step>::empty(), limit, Outcome::Completed),
{
    assert(before.subrange(0, before.len() as int) =~= before);
}

/// One access made is a completed run of the script that issues it.
pub proof fn lemma_performed_issue(before: Seq<Access>, access: Access, limit: nat)
    ensures
        performed(before, before.push(access), seq![Step::Issue(access)], limit, Outcome::Completed),
{
    let after = before.push(access);
    let script = seq![Step::Issue(access)];
    let trace = after.skip(before.len() as int);
    assert(after.subrange(0, before.len() as int) =~= before);
    assert(trace[0] == access);
    assert(script.skip(1).len() == 0);
    assert(trace.skip(1).len() == 0);
    reveal_with_fuel(replay, 2);
}

/// A completed run followed by a second run is a run of the two scripts
/// joined, with the second run's outcome.
pub proof fn lemma_performed_then(
    start: Seq<Access>,
    middle: Seq<Access>,
    end: Seq<Access>,
    first: Seq<Step>,
    second: Seq<Step>,
    limit: nat,
    outcome: Outcome,
)
    requires
        performed(start, middle, first, limit, Outcome::Completed),
        performed(middle, end, second, limit, outcome),
    ensures
        performed(start, end, first + second, limit, outcome),
{
    let head = middle.skip(start.len() as int);
    let tail = end.skip(middle.len() as int);
    assert(end.skip(start.len() as int) =~= head + tail) by {
        assert(end.subrange(0, middle.len() as int) == middle);
        assert forall|i: int| 0 <= i < head.len() implies end[start.len() + i] == head[i] by {
            assert(end.subrange(0, middle.len() as int)[start.len() + i] == middle[start.len() + i]);
        }
    }
    assert(end.subrange(0, start.len() as int) =~= start) by {
        assert forall|i: int| 0 <= i < start.len() implies end[i] == start[i] by {
            assert(end.subrange(0, middle.len() as int)[i] == middle[i]);
            assert(middle.subrange(0, start.len() as int)[i] == start[i]);
        }
    }
    lemma_replay_extend(first, head, second, tail, limit);
}

/// A run that ended in a wait giving up is such a run of the script with
/// further steps behind it.
pub proof fn lemma_performed_cut(
    start: Seq<Access>,
    end: Seq<Access>,
    first: Seq<Step>,
    second: Seq<Step>,
    limit: nat,
    field: Field,
)
    requires
        performed(start, end, first, limit, Outcome::TimedOut(field)),
    ensures
        performed(start, end, first + second, limit, Outcome::TimedOut(field)),
{
    lemma_replay_cut(first, second, end.skip(start.len() as int), limit, field);
}

/// A completed run followed by one more access is a completed run of the
/// script with the access behind it.
pub proof fn lemma_performed_push(
    start: Seq<Access>,
    now: Seq<Access>,
    script: Seq<Step>,
    access: Access,
    limit: nat,
)
    requires
        performed(start, now, script, limit, Outcome::Completed),
    ensures
        performed(start, now.push(access), script.push(Step::Issue(access)), limit, Outcome::Completed),
{
    lemma_performed_issue(now, access, limit);
    lemma_performed_then(
        start,
        now,
        now.push(access),
        script,
        seq![Step::Issue(access)],
        limit,
        Outcome::Completed,
    );
    assert(script + seq![Step::Issue(access)] =~= script.push(Step::Issue(access)));
}

/// A completed run followed by a wait is a run of the script with the wait
/// behind it, and ends as the wait did.
pub proof fn lemma_performed_await(
    start: Seq<Access>,
    middle: Seq<Access>,
    end: Seq<Access>,
    script: Seq<Step>,
    field: Field,
    expected: u32,
    limit: nat,
    outcome: Outcome,
)
    requires
        performed(start, middle, script, limit, Outcome::Completed),
        performed(middle, end, seq![Step::Wait { field, expected }], limit, outcome),
    ensures
        performed(start, end, script.push(Step::Wait { field, expected }), limit, outcome),
{
    lemma_performed_then(
        start,
        middle,
        end,
        script,
        seq![Step::Wait { field, expected }],
        limit,
        outcome,
    );
    assert(script + seq![Step::Wait { field, expected }] =~= script.push(
        Step::Wait { field, expected },
    ));
}

/// A probe that found the expected value is a completed run of the probe
/// and the steps that it leaves out.
pub proof fn lemma_performed_probe_hit(
    before: Seq<Access>,
    field: Field,
    expected: u32,
    skipped: Seq<Step>,
    limit: nat,
)
    ensures
        performed(
            before,
            before.push(Access::Read { field, value: expected }),
            seq![Step::Probe { field, expected, skip: skipped.len() }] + skipped,
            limit,
            Outcome::Completed,
        ),
{
    let after = before.push(Access::Read { field, value: expected });
    let script = seq![Step::Probe { field, expected, skip: skipped.len() }] + skipped;
    let trace = after.skip(before.len() as int);
    assert(after.subrange(0, before.len() as int) =~= before);
    assert(trace[0] == Access::Read { field, value: expected });
    assert(script[0] == Step::Probe { field, expected, skip: skipped.len() });
    assert(script.skip(1 + skipped.len() as int).len() == 0);
    assert(trace.skip(1).len() == 0);
    reveal_with_fuel(replay, 2);
}

/// A probe that found another value, followed by a run of the steps behind
/// it, is a run of the probe and those steps.
pub proof fn lemma_performed_probe_miss(
    before: Seq<Access>,
    end: Seq<Access>,
    field: Field,
    expected: u32,
    value: u32,
    skip: nat,
    rest: Seq<Step>,
    limit: nat,
    outcome: Outcome,
)
    requires
        value != expected,
        skip <= rest.len(),
        performed(before.push(Access::Read { field, value }), end, rest, limit, outcome),
    ensures
        performed(before, end, seq![Step::Probe { field, expected, skip }] + rest, limit, outcome),
{
    let middle = before.push(Access::Read { field, value });
    let script = seq![Step::Probe { field, expected, skip }] + rest;
    let trace = end.skip(before.len() as int);
    assert(end.subrange(0, before.len() as int) =~= before) by {
        assert forall|i: int| 0 <= i < before.len() implies end[i] == before[i] by {
            assert(end.subrange(0, middle.len() as int)[i] == middle[i]);
        }
    }
    assert(trace[0] == Access::Read { field, value }) by {
        assert(end.subrange(0, middle.len() as int)[before.len() as int] == middle[before.len() as int]);
    }
    assert(trace.skip(1) =~= end.skip(middle.len() as int));
    assert(script[0] == Step::Probe { field, expected, skip });
    assert(script.skip(1) =~= rest);
}

/// As many misses as the budget allows are a wait that gave up.
proof fn lemma_poll_exhausted(trace: Seq<Access>, field: Field, expected: u32)
    requires
        forall|i: int| 0 <= i < trace.len() ==> is_miss(#[trigger] trace[i], field, expected),
    ensures
        poll(trace, field, expected, trace.len()) == Some((trace.len(), false)),
    decreases trace.len(),
{
    if trace.len() > 0 {
        assert(is_miss(trace[0], field, expected));
        assert forall|i: int| 0 <= i < trace.skip(1).len() implies is_miss(
            #[trigger] trace.skip(1)[i],
            field,
            expected,
        ) by {
            assert(trace.skip(1)[i] == trace[i + 1]);
        }
        lemma_poll_exhausted(trace.skip(1), field, expected);
    }
}

/// Misses followed by a hit, within the budget, are a wait that succeeded.
proof fn lemma_poll_found(misses: Seq<Access>, field: Field, expected: u32, budget: nat)
    requires
        forall|i: int| 0 <= i < misses.len() ==> is_miss(#[trigger] misses[i], field, expected),
        misses.len() < budget,
    ensures
        poll(misses.push(Access::Read { field, value: expected }), field, expected, budget) == Some(
            (misses.len() + 1, true),
        ),
    decreases misses.len(),
{
    let trace = misses.push(Access::Read { field, value: expected });
    if misses.len() > 0 {
        assert(trace[0] == misses[0]);
        assert(is_miss(misses[0], field, expected));
        assert(trace.skip(1) =~= misses.skip(1).push(Access::Read { field, value: expected }));
        assert forall|i: int| 0 <= i < misses.skip(1).len() implies is_miss(
            #[trigger] misses.skip(1)[i],
            field,
            expected,
        ) by {
            assert(misses.skip(1)[i] == misses[i + 1]);
        }
        lemma_poll_found(misses.skip(1), field, expected, (budget - 1) as nat);
    }
}

/// Reads `field` until it holds `expected`, at most `poll_limit` times, and
/// tells whether it came to hold it.
pub fn wait_for<R: RegisterBlock>(regs: &mut R, field: Field, expected: u32, poll_limit: u32) -> (ready:
    bool)
    ensures
        performed(
            old(regs).history(),
            final(regs).history(),
            seq![Step::Wait { field, expected }],
            poll_limit as nat,
            if ready {
                Outcome::Completed
            } else {
                Outcome::TimedOut(field)
            },
        ),
{
    let ghost before = regs.history();
    let mut polls: u32 = 0;
    proof {
        assert(before.subrange(0, before.len() as int) =~= before);
    }
    while polls < poll_limit
        invariant
            polls <= poll_limit,
            before == old(regs).history(),
            regs.history().len() == before.len() + polls,
            regs.history().subrange(0, before.len() as int) == before,
            forall|i: int|
                0 <= i < polls ==> is_miss(
                    #[trigger] regs.history().skip(before.len() as int)[i],
                    field,
                    expected,
                ),
        decreases poll_limit - polls,
    {
        let ghost misses = regs.history().skip(before.len() as int);
        let ghost earlier = regs.history();
        let value = regs.read(field);
        polls = polls + 1;
        proof {
            let script = seq![Step::Wait { field, expected }];
            let trace = regs.history().skip(before.len() as int);
            assert(trace =~= misses.push(Access::Read { field, value }));
            assert(regs.history().subrange(0, before.len() as int) =~= earlier.subrange(
                0,
                before.len() as int,
            ));
            if value == expected {
                lemma_poll_found(misses, field, expected, poll_limit as nat);
                assert(script.skip(1).len() == 0);
                assert(trace.skip(trace.len() as int).len() == 0);
                reveal_with_fuel(replay, 2);
            } else {
                assert forall|i: int| 0 <= i < polls implies is_miss(
                    #[trigger] trace[i],
                    field,
                    expected,
                ) by {
                    if i < polls - 1 {
                        assert(trace[i] == misses[i]);
                    }
                }
            }
        }
        if value == expected {
            return true;
        }
    }
    proof {
        let trace = regs.history().skip(before.len() as int);
        lemma_poll_exhausted(trace, field, expected);
        reveal_with_fuel(replay, 2);
    }
    false
}

} // verus!
